//! The metadata worker: a command queue alternating explicit
//! high-priority fetches with a rate-limited background sweep over
//! items with incomplete metadata, with pause and resume.

use vstd::prelude::*;
use vstd::string::StringExecFns;
use crate::adapter::{
    metadata_args, patreon_metadata_args, patreon_post_url_spec, youtube_watch_url_spec,
    youtube_watch_url, YouTubeFetcher,
};
use crate::events::{CoreError, MetadataEvent};
use crate::model::{FeedItemView, Platform};
use crate::store::Store;
use crate::text::str_eq;

verus! {

/// How many commands the queue admits.
pub const METADATA_QUEUE_CAPACITY: usize = 100;

/// How many incomplete items one background sweep takes on.
pub const SWEEP_BATCH_SIZE: usize = 5;

/// A command accepted by the metadata worker.
pub enum MetadataCommand {
    FetchImmediate(Vec<String>),
    Pause,
    Resume,
}

/// Everything a worker needs to fetch one item's metadata.
pub struct MetadataPlan {
    pub feed_item_id: String,
    pub external_id: String,
    pub platform: Platform,
    pub cookie_path: Option<String>,
    pub args: Vec<String>,
}

/// The metadata worker's in-memory coordination state.
pub struct MetadataWorker {
    /// Commands admitted but not yet handled.
    pub queue: Vec<MetadataCommand>,
    /// Whether the background sweep is paused.
    pub paused: bool,
    /// The remaining item identifiers of an immediate batch.
    pub batch: Vec<String>,
    /// Whether an immediate batch is in progress.
    pub batch_active: bool,
}

impl MetadataWorker {
    /// While an immediate batch is in progress the worker is paused.
    pub open spec fn wf(self) -> bool {
        self.batch_active ==> self.paused
    }

    /// An immediate batch always holds the sweep off: pausing (which
    /// every `FetchImmediate` does for its duration) keeps the
    /// background sweep from touching the fetch tool until the batch
    /// completes or the worker is resumed.
    pub proof fn lemma_batch_holds_sweep_off(self)
        requires
            self.wf(),
            self.batch_active,
        ensures
            self.paused,
    {
    }

    /// A fresh worker: not paused, no batch in progress.
    pub fn new() -> (r: MetadataWorker)
        ensures
            r.wf(),
            r.queue@.len() == 0,
            r.paused == false,
            r.batch@.len() == 0,
            r.batch_active == false,
    {
        MetadataWorker { queue: Vec::new(), paused: false, batch: Vec::new(), batch_active: false }
    }

    /// Admits a high-priority fetch request for these items; it fails
    /// only when the queue is full.
    pub fn fetch_immediate(&mut self, feed_item_ids: Vec<String>) -> (r: Result<(), String>)
        ensures
            final(self).paused == old(self).paused,
            final(self).batch == old(self).batch,
            final(self).batch_active == old(self).batch_active,
            old(self).queue@.len() < METADATA_QUEUE_CAPACITY ==> r is Ok && final(self).queue@
                == old(self).queue@.push(MetadataCommand::FetchImmediate(feed_item_ids)),
            old(self).queue@.len() >= METADATA_QUEUE_CAPACITY ==> r is Err && final(self).queue
                == old(self).queue,
            old(self).wf() ==> final(self).wf(),
    {
        if self.queue.len() < METADATA_QUEUE_CAPACITY {
            self.queue.push(MetadataCommand::FetchImmediate(feed_item_ids));
            Ok(())
        } else {
            Err(String::from_str("Failed to queue metadata fetch"))
        }
    }

    /// Admits a pause request.
    pub fn pause(&mut self) -> (r: Result<(), String>)
        ensures
            final(self).paused == old(self).paused,
            final(self).batch == old(self).batch,
            final(self).batch_active == old(self).batch_active,
            old(self).queue@.len() < METADATA_QUEUE_CAPACITY ==> r is Ok && final(self).queue@
                == old(self).queue@.push(MetadataCommand::Pause),
            old(self).queue@.len() >= METADATA_QUEUE_CAPACITY ==> r is Err && final(self).queue
                == old(self).queue,
            old(self).wf() ==> final(self).wf(),
    {
        if self.queue.len() < METADATA_QUEUE_CAPACITY {
            self.queue.push(MetadataCommand::Pause);
            Ok(())
        } else {
            Err(String::from_str("Failed to pause metadata worker"))
        }
    }

    /// Admits a resume request.
    pub fn resume(&mut self) -> (r: Result<(), String>)
        ensures
            final(self).paused == old(self).paused,
            final(self).batch == old(self).batch,
            final(self).batch_active == old(self).batch_active,
            old(self).queue@.len() < METADATA_QUEUE_CAPACITY ==> r is Ok && final(self).queue@
                == old(self).queue@.push(MetadataCommand::Resume),
            old(self).queue@.len() >= METADATA_QUEUE_CAPACITY ==> r is Err && final(self).queue
                == old(self).queue,
            old(self).wf() ==> final(self).wf(),
    {
        if self.queue.len() < METADATA_QUEUE_CAPACITY {
            self.queue.push(MetadataCommand::Resume);
            Ok(())
        } else {
            Err(String::from_str("Failed to resume metadata worker"))
        }
    }

    /// Handles the oldest queued command. The consumer handles one
    /// command at a time: while an immediate batch is in progress no
    /// further command is taken up. A `FetchImmediate` starts its
    /// batch and pauses the background sweep for the batch's duration.
    pub fn handle_command(&mut self) -> (r: bool)
        requires
            old(self).wf(),
        ensures
            final(self).wf(),
            r == (!old(self).batch_active && old(self).queue@.len() > 0),
            !r ==> *final(self) == *old(self),
            r ==> final(self).queue@ == old(self).queue@.drop_first(),
            r ==> match old(self).queue@[0] {
                MetadataCommand::FetchImmediate(ids) => {
                    &&& final(self).batch == ids
                    &&& final(self).batch_active == true
                    &&& final(self).paused == true
                },
                MetadataCommand::Pause => {
                    &&& final(self).paused == true
                    &&& final(self).batch == old(self).batch
                    &&& final(self).batch_active == old(self).batch_active
                },
                MetadataCommand::Resume => {
                    &&& final(self).paused == false
                    &&& final(self).batch == old(self).batch
                    &&& final(self).batch_active == false
                },
            },
    {
        if self.batch_active || self.queue.len() == 0 {
            return false;
        }
        let cmd = self.queue.remove(0);
        proof {
            assert(self.queue@ =~= old(self).queue@.drop_first());
        }
        match cmd {
            MetadataCommand::FetchImmediate(ids) => {
                self.batch = ids;
                self.batch_active = true;
                self.paused = true;
            },
            MetadataCommand::Pause => {
                self.paused = true;
            },
            MetadataCommand::Resume => {
                self.paused = false;
            },
        }
        true
    }

    /// Hands out the next item of the immediate batch. When the batch
    /// is exhausted it ends and the pause it imposed is cleared —
    /// deliberately even when the caller had paused the worker
    /// beforehand, matching the command surface's behaviour.
    pub fn next_immediate(&mut self) -> (r: Option<String>)
        requires
            old(self).wf(),
        ensures
            final(self).wf(),
            final(self).queue == old(self).queue,
            !old(self).batch_active ==> r is None && *final(self) == *old(self),
            old(self).batch_active && old(self).batch@.len() > 0 ==> {
                &&& r is Some
                &&& (r->0)@ == old(self).batch@[0]@
                &&& final(self).batch@ == old(self).batch@.drop_first()
                &&& final(self).batch_active == true
                &&& final(self).paused == true
            },
            old(self).batch_active && old(self).batch@.len() == 0 ==> {
                &&& r is None
                &&& final(self).batch_active == false
                &&& final(self).paused == false
            },
    {
        if !self.batch_active {
            return None;
        }
        if self.batch.len() == 0 {
            self.batch_active = false;
            self.paused = false;
            return None;
        }
        let id = self.batch.remove(0);
        proof {
            assert(self.batch@ =~= old(self).batch@.drop_first());
        }
        Some(id)
    }

    /// Starts a background sweep: up to the sweep batch size of items
    /// with incomplete metadata, newest first — unless the worker is
    /// paused (by a command or by an immediate batch in progress), in
    /// which case nothing is fetched.
    pub fn start_sweep(&self, store: &Store) -> (r: Option<Vec<String>>)
        ensures
            self.paused ==> r is None,
            !self.paused ==> r is Some && (r->0)@.map_values(|x: String| x@)
                == Store::prefix_at_most(
                Store::incomplete_ids_rev(store.feed_items@),
                SWEEP_BATCH_SIZE as int,
            ),
    {
        if self.paused {
            return None;
        }
        Some(store.get_incomplete_items(SWEEP_BATCH_SIZE))
    }

    /// Up to `limit` identifiers of feed items with incomplete
    /// metadata belonging to a creator, newest first.
    pub fn get_incomplete_items_for_creator(store: &Store, creator_id: &str, limit: usize) -> (r:
        Vec<String>)
        ensures
            r@.map_values(|x: String| x@) == Store::prefix_at_most(
                Store::incomplete_ids_rev_for_creator(
                    store.feed_items@,
                    store.sources@,
                    creator_id@,
                ),
                limit as int,
            ),
    {
        store.get_incomplete_items_for_creator(creator_id, limit)
    }
}

/// A `metadata_update` event.
pub fn metadata_event(feed_item_id: &str, status: &str, error: Option<CoreError>) -> (r:
    MetadataEvent)
    ensures
        r.feed_item_id@ == feed_item_id@,
        r.status@ == status@,
        error is Some ==> r.message is Some && r.message->0@ == error->0.message_spec(),
        error is None ==> r.message is None,
{
    MetadataEvent {
        feed_item_id: feed_item_id.to_owned(),
        status: status.to_owned(),
        message: match error {
            Some(e) => Some(e.message()),
            None => None,
        },
    }
}

/// A metadata fetch the worker must plan: the item and its source
/// exist, and the platform either needs no credential (YouTube) or
/// resolves one — an explicit reference that exists, or a platform
/// default (Patreon).
pub open spec fn fetch_ready(store: Store, feed_item_id: Seq<char>) -> bool {
    &&& store.has_feed_item(feed_item_id)
    &&& {
        let item = store.feed_items@[store.feed_index_of(feed_item_id)]@;
        &&& store.has_source(item.source_id)
        &&& {
            let s = store.sources@[store.source_index_of(item.source_id)];
            ||| s.platform@ == "youtube"@
            ||| (s.platform@ == "patreon"@ && (match s.credential_id {
                Some(cid) => store.has_credential(cid@),
                None => store.has_default_for("patreon"@),
            }))
        }
    }
}

/// Plans one item's metadata fetch: resolves the item and its source,
/// dispatches on the platform tag, and — for the cookie-authenticated
/// platform — resolves a credential by explicit reference or platform
/// default. A missing credential is a terminal per-item error, never
/// fatal to the worker; nothing here changes the store.
pub fn prepare_fetch(store: &Store, feed_item_id: &str) -> (r: Result<MetadataPlan, MetadataEvent>)
    requires
        store.wf(),
    ensures
        fetch_ready(*store, feed_item_id@) == (r is Ok),
        match r {
            Ok(plan) => {
                let item = store.feed_items@[store.feed_index_of(feed_item_id@)]@;
                &&& store.has_feed_item(feed_item_id@)
                &&& plan.feed_item_id@ == feed_item_id@
                &&& plan.external_id@ == item.external_id
                &&& store.has_source(item.source_id)
                &&& {
                    let s = store.sources@[store.source_index_of(item.source_id)];
                    &&& plan.platform == Platform::Youtube ==> {
                        &&& s.platform@ == "youtube"@
                        &&& plan.cookie_path is None
                        &&& plan.args@.len() == 4
                        &&& plan.args@[3]@ == youtube_watch_url_spec(item.external_id)
                    }
                    &&& plan.platform == Platform::Patreon ==> {
                        &&& s.platform@ == "patreon"@
                        &&& plan.cookie_path is Some
                        &&& plan.args@.len() == 6
                        &&& plan.args@[4]@ == plan.cookie_path->0@
                        &&& plan.args@[5]@ == patreon_post_url_spec(item.external_id)
                        &&& (match s.credential_id {
                            Some(cid) => exists|c: int|
                                0 <= c < store.credentials@.len() && (
                                #[trigger] store.credentials@[c]).id@ == cid@
                                    && plan.cookie_path->0@ == store.credentials@[c].cookie_path@,
                            None => exists|c: int|
                                0 <= c < store.credentials@.len() && Store::is_default_for(
                                    #[trigger] store.credentials@[c],
                                    "patreon"@,
                                ) && plan.cookie_path->0@ == store.credentials@[c].cookie_path@,
                        })
                    }
                    &&& (plan.platform == Platform::Youtube || plan.platform == Platform::Patreon)
                }
            },
            Err(ev) => {
                &&& ev.feed_item_id@ == feed_item_id@
                &&& ev.status@ == "error"@
                &&& ev.message is Some
                &&& (!store.has_feed_item(feed_item_id@) ==> ev.message->0@
                    == CoreError::ItemOrSourceNotFound.message_spec())
                &&& (store.has_feed_item(feed_item_id@) ==> {
                    let item = store.feed_items@[store.feed_index_of(feed_item_id@)]@;
                    &&& (!store.has_source(item.source_id) ==> ev.message->0@
                        == CoreError::ItemOrSourceNotFound.message_spec())
                    &&& (store.has_source(item.source_id) ==> {
                        let s = store.sources@[store.source_index_of(item.source_id)];
                        &&& (s.platform@ == "patreon"@ ==> ev.message->0@
                            == CoreError::CredentialMissing.message_spec())
                        &&& (s.platform@ != "youtube"@ && s.platform@ != "patreon"@
                            ==> ev.message->0@ == CoreError::UnknownPlatform.message_spec())
                    })
                })
            },
        },
{
    let item = match store.get_feed_item(feed_item_id) {
        Some(item) => item,
        None => {
            return Err(metadata_event(feed_item_id, "error", Some(CoreError::ItemOrSourceNotFound)));
        },
    };
    proof {
        store.lemma_feed_index(feed_item_id@);
    }
    let source = match store.get_source(item.source_id.as_str()) {
        Some(source) => source,
        None => {
            return Err(metadata_event(feed_item_id, "error", Some(CoreError::ItemOrSourceNotFound)));
        },
    };
    proof {
        store.lemma_source_index(item.source_id@);
    }
    if str_eq(source.platform.as_str(), "youtube") {
        let url = youtube_watch_url(item.external_id.as_str());
        let args = metadata_args(url.as_str());
        return Ok(
            MetadataPlan {
                feed_item_id: feed_item_id.to_owned(),
                external_id: item.external_id,
                platform: Platform::Youtube,
                cookie_path: None,
                args,
            },
        );
    }
    if str_eq(source.platform.as_str(), "patreon") {
        let cookie_path = match &source.credential_id {
            Some(cid) => match store.get_credential(cid.as_str()) {
                Some(credential) => credential.cookie_path,
                None => {
                    return Err(
                        metadata_event(feed_item_id, "error", Some(CoreError::CredentialMissing)),
                    );
                },
            },
            None => match store.get_default_credential("patreon") {
                Some(credential) => credential.cookie_path,
                None => {
                    return Err(
                        metadata_event(feed_item_id, "error", Some(CoreError::CredentialMissing)),
                    );
                },
            },
        };
        let args = patreon_metadata_args(item.external_id.as_str(), cookie_path.as_str());
        return Ok(
            MetadataPlan {
                feed_item_id: feed_item_id.to_owned(),
                external_id: item.external_id,
                platform: Platform::Patreon,
                cookie_path: Some(cookie_path),
                args,
            },
        );
    }
    Err(metadata_event(feed_item_id, "error", Some(CoreError::UnknownPlatform)))
}

/// Records one item's fetched metadata: the upload date (converted
/// from `YYYYMMDD`), duration and thumbnail each replace the stored
/// value only when present, existing values are preserved otherwise,
/// and the item is marked metadata-complete.
pub fn apply_fetch_result(
    store: &mut Store,
    feed_item_id: &str,
    upload_date: Option<String>,
    duration: Option<i64>,
    thumbnail: Option<String>,
) -> (r: MetadataEvent)
    requires
        old(store).wf(),
    ensures
        final(store).wf(),
        final(store).settings == old(store).settings,
        final(store).creators == old(store).creators,
        final(store).sources == old(store).sources,
        final(store).credentials == old(store).credentials,
        final(store).warehouse_items == old(store).warehouse_items,
        final(store).feed_items@.len() == old(store).feed_items@.len(),
        !old(store).has_feed_item(feed_item_id@) ==> *final(store) == *old(store),
        old(store).has_feed_item(feed_item_id@) ==> {
            let i = old(store).feed_index_of(feed_item_id@);
            let parsed = (match upload_date {
                Some(d) => crate::adapter::parse_upload_date_spec(d@),
                None => None,
            });
            &&& (forall|j: int|
                0 <= j < old(store).feed_items@.len() && j != i ==> final(store).feed_items@[j]
                    == #[trigger] old(store).feed_items@[j])
            &&& final(store).feed_items@[i]@ == FeedItemView {
                published_at: (if parsed is Some {
                    parsed
                } else {
                    old(store).feed_items@[i]@.published_at
                }),
                duration: (if duration is Some {
                    duration
                } else {
                    old(store).feed_items@[i]@.duration
                }),
                thumbnail_url: (match thumbnail {
                    Some(t) => Some(t@),
                    None => old(store).feed_items@[i]@.thumbnail_url,
                }),
                metadata_complete: true,
                ..old(store).feed_items@[i]@
            }
        },
        r.feed_item_id@ == feed_item_id@,
        r.status@ == "completed"@,
        r.message is None,
{
    let parsed = match &upload_date {
        Some(d) => YouTubeFetcher::parse_upload_date(d.as_str()),
        None => None,
    };
    store.update_feed_item_metadata(feed_item_id, parsed, duration, thumbnail);
    proof {
        if old(store).has_feed_item(feed_item_id@) {
            old(store).lemma_feed_index(feed_item_id@);
        }
    }
    metadata_event(feed_item_id, "completed", None)
}

} // verus!
