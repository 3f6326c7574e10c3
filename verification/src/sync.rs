//! The feed-sync orchestrator: a best-effort command queue, per-source
//! sync planning with platform dispatch and credential resolution, and
//! the idempotent reconciliation of listing rows into feed items.

use vstd::prelude::*;
use vstd::string::StringExecFns;
use crate::adapter::{
    is_auth_error, parse_upload_date_spec, patreon_listing_args, patreon_posts_url_spec,
    stderr_is_auth_error, youtube_listing_args, ListingRow, YouTubeFetcher,
};
use crate::events::{CoreError, SyncEvent};
use crate::model::{CreateFeedItemRequest, Platform, SourceStatus, SourceView};
use crate::numbers::dec_digits;
use crate::store::Store;
use crate::text::str_eq;

verus! {

/// How many commands the queue admits.
pub const SYNC_QUEUE_CAPACITY: usize = 100;

/// A command accepted by the sync orchestrator.
pub enum SyncCommand {
    SyncSource(String),
    SyncAllForCreator(String),
    SyncAll,
    Stop,
}

/// What the next queued command asks for.
pub enum SyncStep {
    /// No command is queued.
    Idle,
    /// The orchestrator was asked to stop.
    Stopped,
    /// Sync these sources, one at a time, in order.
    Targets(Vec<String>),
}

/// Everything a worker needs to run one listing call.
pub struct SyncPlan {
    pub source_id: String,
    pub platform: Platform,
    pub display_name: String,
    pub args: Vec<String>,
}

/// What planning a sync decided.
pub enum SyncBegin {
    /// Run the fetch tool in listing mode with the plan's arguments.
    Run(SyncPlan),
    /// The sync cannot start; the event carries the classified error.
    Failed(SyncEvent),
}

/// The sync orchestrator's in-memory state: its command queue.
pub struct SyncManager {
    pub queue: Vec<SyncCommand>,
}

/// The `sync_started` event for a source.
pub fn sync_started_event(source_id: &str) -> (r: SyncEvent)
    ensures
        r.source_id@ == source_id@,
        r.status@ == "started"@,
        r.message is None,
        r.new_items is None,
{
    SyncEvent {
        source_id: source_id.to_owned(),
        status: String::from_str("started"),
        message: None,
        new_items: None,
    }
}

impl SyncManager {
    /// A fresh orchestrator with an empty queue.
    pub fn new() -> (r: SyncManager)
        ensures
            r.queue@.len() == 0,
    {
        SyncManager { queue: Vec::new() }
    }

    /// Requests a sync of one source: best-effort enqueue, silently
    /// dropped when the queue is saturated.
    pub fn sync_source(&mut self, source_id: String)
        ensures
            old(self).queue@.len() < SYNC_QUEUE_CAPACITY ==> final(self).queue@ == old(self).queue@.push(SyncCommand::SyncSource(source_id)),
            old(self).queue@.len() >= SYNC_QUEUE_CAPACITY ==> final(self).queue == old(self).queue,
    {
        if self.queue.len() < SYNC_QUEUE_CAPACITY {
            self.queue.push(SyncCommand::SyncSource(source_id));
        }
    }

    /// Requests a sync of every source of a creator: best-effort.
    pub fn sync_creator(&mut self, creator_id: String)
        ensures
            old(self).queue@.len() < SYNC_QUEUE_CAPACITY ==> final(self).queue@ == old(self).queue@.push(SyncCommand::SyncAllForCreator(creator_id)),
            old(self).queue@.len() >= SYNC_QUEUE_CAPACITY ==> final(self).queue == old(self).queue,
    {
        if self.queue.len() < SYNC_QUEUE_CAPACITY {
            self.queue.push(SyncCommand::SyncAllForCreator(creator_id));
        }
    }

    /// Requests a global sync sweep, as the periodic timer does:
    /// best-effort.
    pub fn sync_all(&mut self)
        ensures
            old(self).queue@.len() < SYNC_QUEUE_CAPACITY ==> final(self).queue@ == old(self).queue@.push(SyncCommand::SyncAll),
            old(self).queue@.len() >= SYNC_QUEUE_CAPACITY ==> final(self).queue == old(self).queue,
    {
        if self.queue.len() < SYNC_QUEUE_CAPACITY {
            self.queue.push(SyncCommand::SyncAll);
        }
    }

    /// Dispatches the oldest queued command into the list of sources
    /// to sync: one source, a creator's sources, or every source not
    /// currently errored. Sources are then synced one at a time; one
    /// source's failure never halts the rest of the batch.
    pub fn next_targets(&mut self, store: &Store) -> (r: SyncStep)
        ensures
            final(self).queue@ == if old(self).queue@.len() > 0 {
                old(self).queue@.drop_first()
            } else {
                old(self).queue@
            },
            old(self).queue@.len() == 0 ==> r is Idle,
            old(self).queue@.len() > 0 ==> match old(self).queue@[0] {
                SyncCommand::SyncSource(id) => match r {
                    SyncStep::Targets(ts) => ts@.len() == 1 && ts@[0]@ == id@,
                    _ => false,
                },
                SyncCommand::SyncAllForCreator(creator_id) => match r {
                    SyncStep::Targets(ts) => ts@.map_values(|x: String| x@)
                        == Store::creator_source_ids(store.sources@, creator_id@),
                    _ => false,
                },
                SyncCommand::SyncAll => match r {
                    SyncStep::Targets(ts) => ts@.map_values(|x: String| x@)
                        == Store::sync_target_ids(store.sources@),
                    _ => false,
                },
                SyncCommand::Stop => r is Stopped,
            },
    {
        if self.queue.len() == 0 {
            return SyncStep::Idle;
        }
        let cmd = self.queue.remove(0);
        proof {
            assert(self.queue@ =~= old(self).queue@.drop_first());
        }
        match cmd {
            SyncCommand::SyncSource(id) => {
                let mut ts: Vec<String> = Vec::new();
                ts.push(id);
                SyncStep::Targets(ts)
            },
            SyncCommand::SyncAllForCreator(creator_id) => SyncStep::Targets(
                store.source_ids_for_creator(creator_id.as_str()),
            ),
            SyncCommand::SyncAll => SyncStep::Targets(store.source_ids_to_sync()),
            SyncCommand::Stop => SyncStep::Stopped,
        }
    }
}

/// A sync the orchestrator must run: the source exists and either
/// lists unauthenticated (YouTube) or resolves a cookie — an explicit
/// credential reference that exists, or a platform default (Patreon).
pub open spec fn sync_ready(store: Store, source_id: Seq<char>) -> bool {
    &&& store.has_source(source_id)
    &&& {
        let s = store.sources@[store.source_index_of(source_id)];
        ||| s.platform@ == "youtube"@
        ||| (s.platform@ == "patreon"@ && (match s.credential_id {
            Some(cid) => store.has_credential(cid@),
            None => store.has_default_for("patreon"@),
        }))
    }
}

/// Plans one source's sync: resolves the source, dispatches on its
/// platform tag, and — for the cookie-authenticated platform —
/// resolves a credential by explicit reference or platform default. A
/// missing source fails without touching it; an unknown platform tag
/// or missing credential fails immediately, marks the source errored
/// and inserts nothing.
pub fn begin_sync(store: &mut Store, source_id: &str) -> (r: SyncBegin)
    requires
        old(store).wf(),
    ensures
        final(store).wf(),
        final(store).next_id == old(store).next_id,
        final(store).settings == old(store).settings,
        final(store).creators == old(store).creators,
        final(store).credentials == old(store).credentials,
        final(store).feed_items == old(store).feed_items,
        final(store).warehouse_items == old(store).warehouse_items,
        !old(store).has_source(source_id@) ==> *final(store) == *old(store) && r is Failed,
        sync_ready(*old(store), source_id@) ==> r is Run,
        final(store).sources@.len() == old(store).sources@.len(),
        old(store).has_source(source_id@) ==> {
            let s = old(store).sources@[old(store).source_index_of(source_id@)];
            match r {
                SyncBegin::Run(plan) => {
                    &&& *final(store) == *old(store)
                    &&& plan.source_id@ == source_id@
                    &&& plan.display_name@ == (match s.channel_name {
                        Some(n) => n@,
                        None => s.channel_url@,
                    })
                    &&& (plan.platform == Platform::Youtube || plan.platform == Platform::Patreon)
                    &&& plan.platform == Platform::Youtube ==> {
                        &&& s.platform@ == "youtube"@
                        &&& plan.args@.len() == 4
                        &&& plan.args@[3]@ == s.channel_url@
                    }
                    &&& plan.platform == Platform::Patreon ==> {
                        &&& s.platform@ == "patreon"@
                        &&& plan.args@.len() == 8
                        &&& plan.args@[7]@ == patreon_posts_url_spec(s.channel_url@)
                        &&& (match s.credential_id {
                            Some(cid) => old(store).has_credential(cid@) && exists|c: int|
                                0 <= c < old(store).credentials@.len() && (#[trigger] old(store).credentials@[c]).id@ == cid@ && plan.args@[4]@ == old(store).credentials@[c].cookie_path@,
                            None => old(store).has_default_for("patreon"@) && exists|c: int|
                                0 <= c < old(store).credentials@.len() && Store::is_default_for(
                                    #[trigger] old(store).credentials@[c],
                                    "patreon"@,
                                ) && plan.args@[4]@ == old(store).credentials@[c].cookie_path@,
                        })
                    }
                },
                SyncBegin::Failed(ev) => {
                    let i = old(store).source_index_of(source_id@);
                    &&& ev.source_id@ == source_id@
                    &&& ev.status@ == "error"@
                    &&& ev.message is Some
                    &&& final(store).sources@[i]@ == SourceView {
                        status: SourceStatus::Error,
                        ..old(store).sources@[i]@
                    }
                    &&& (forall|j: int|
                        0 <= j < old(store).sources@.len() && j != i ==> final(store).sources@[j]
                            == #[trigger] old(store).sources@[j])
                    &&& (s.platform@ != "youtube"@ && s.platform@ != "patreon"@ ==> ev.message->0@
                        == CoreError::UnknownPlatform.message_spec())
                    &&& (s.platform@ == "patreon"@ ==> (match s.credential_id {
                        Some(cid) => !old(store).has_credential(cid@) && ev.message->0@
                            == CoreError::ItemOrSourceNotFound.message_spec(),
                        None => !old(store).has_default_for("patreon"@) && ev.message->0@
                            == CoreError::CredentialMissing.message_spec(),
                    }))
                },
            }
        },
{
    let source = match store.get_source(source_id) {
        Some(source) => source,
        None => {
            return SyncBegin::Failed(sync_error_event(source_id, CoreError::ItemOrSourceNotFound));
        },
    };
    proof {
        old(store).lemma_source_index(source_id@);
    }
    let display_name = match &source.channel_name {
        Some(n) => n.clone(),
        None => source.channel_url.clone(),
    };
    if str_eq(source.platform.as_str(), "youtube") {
        let args = youtube_listing_args(source.channel_url.as_str());
        return SyncBegin::Run(
            SyncPlan {
                source_id: source_id.to_owned(),
                platform: Platform::Youtube,
                display_name,
                args,
            },
        );
    }
    if str_eq(source.platform.as_str(), "patreon") {
        let cookie_path = match &source.credential_id {
            Some(cid) => {
                match store.get_credential(cid.as_str()) {
                    Some(credential) => credential.cookie_path,
                    None => {
                        store.mark_source_error(source_id);
                        proof {
                            old(store).lemma_source_index(source_id@);
                        }
                        return SyncBegin::Failed(
                            sync_error_event(source_id, CoreError::ItemOrSourceNotFound),
                        );
                    },
                }
            },
            None => {
                match store.get_default_credential("patreon") {
                    Some(credential) => credential.cookie_path,
                    None => {
                        store.mark_source_error(source_id);
                        proof {
                            old(store).lemma_source_index(source_id@);
                        }
                        return SyncBegin::Failed(
                            sync_error_event(source_id, CoreError::CredentialMissing),
                        );
                    },
                }
            },
        };
        let args = patreon_listing_args(source.channel_url.as_str(), cookie_path.as_str());
        return SyncBegin::Run(
            SyncPlan {
                source_id: source_id.to_owned(),
                platform: Platform::Patreon,
                display_name,
                args,
            },
        );
    }
    store.mark_source_error(source_id);
    proof {
        old(store).lemma_source_index(source_id@);
    }
    SyncBegin::Failed(sync_error_event(source_id, CoreError::UnknownPlatform))
}

/// The `sync_error` event for a classified failure.
pub fn sync_error_event(source_id: &str, error: CoreError) -> (r: SyncEvent)
    ensures
        r.source_id@ == source_id@,
        r.status@ == "error"@,
        r.message is Some && r.message->0@ == error.message_spec(),
        r.new_items is None,
{
    SyncEvent {
        source_id: source_id.to_owned(),
        status: String::from_str("error"),
        message: Some(error.message()),
        new_items: None,
    }
}

/// Classifies a listing failure: on the cookie-authenticated platform
/// an authentication indicator in the tool's error output is surfaced
/// as an authentication failure, anything else as a tool failure.
pub fn classify_listing_failure(platform: Platform, stderr: &str) -> (r: CoreError)
    ensures
        r == (if platform == Platform::Patreon && is_auth_error(stderr@) {
            CoreError::AuthenticationFailed
        } else {
            CoreError::ToolExecutionFailed
        }),
{
    match platform {
        Platform::Patreon => {
            if stderr_is_auth_error(stderr) {
                CoreError::AuthenticationFailed
            } else {
                CoreError::ToolExecutionFailed
            }
        },
        _ => CoreError::ToolExecutionFailed,
    }
}

/// Marks a failed sync: the source status becomes `Error`, its
/// last-synced timestamp is untouched, and no feed item is inserted.
/// The event message carries the classified error, with the tool's
/// own error text appended when the caller has one.
pub fn apply_sync_failure(
    store: &mut Store,
    source_id: &str,
    error: CoreError,
    detail: Option<&str>,
) -> (r: SyncEvent)
    requires
        old(store).wf(),
    ensures
        final(store).wf(),
        final(store).feed_items == old(store).feed_items,
        final(store).settings == old(store).settings,
        final(store).creators == old(store).creators,
        final(store).credentials == old(store).credentials,
        final(store).warehouse_items == old(store).warehouse_items,
        final(store).next_id == old(store).next_id,
        old(store).has_source(source_id@) ==> {
            let i = old(store).source_index_of(source_id@);
            &&& final(store).sources@[i]@ == SourceView {
                status: SourceStatus::Error,
                ..old(store).sources@[i]@
            }
            &&& forall|j: int|
                0 <= j < old(store).sources@.len() && j != i ==> final(store).sources@[j]
                    == #[trigger] old(store).sources@[j]
        },
        !old(store).has_source(source_id@) ==> *final(store) == *old(store),
        r.source_id@ == source_id@,
        r.status@ == "error"@,
        r.message is Some && r.message->0@ == error.message_spec() + (match detail {
            Some(d) => ": "@ + d@,
            None => Seq::<char>::empty(),
        }),
        r.new_items is None,
{
    store.mark_source_error(source_id);
    proof {
        if old(store).has_source(source_id@) {
            old(store).lemma_source_index(source_id@);
        }
    }
    let mut message = error.message();
    if let Some(d) = detail {
        message.append(": ");
        message.append(d);
    }
    proof {
        if detail is None {
            assert(message@ =~= error.message_spec() + Seq::<char>::empty());
        }
    }
    SyncEvent {
        source_id: source_id.to_owned(),
        status: String::from_str("error"),
        message: Some(message),
        new_items: None,
    }
}

/// The feed item creation request one accepted listing row yields.
pub open spec fn row_request(req: CreateFeedItemRequest, source_id: Seq<char>, row: ListingRow) -> bool {
    &&& req.source_id@ == source_id
    &&& req.external_id@ == row.id@
    &&& req.title@ == row.title@
    &&& crate::model::opt_str_view(req.thumbnail_url) == crate::adapter::opt_string_view(
        row.thumbnail,
    )
    &&& crate::model::opt_str_view(req.published_at) == (match row.upload_date {
        Some(d) => parse_upload_date_spec(d@),
        None => None,
    })
    &&& req.duration == row.duration
}

/// Records a successful listing: the rows are inserted with the
/// insert-or-ignore discipline keyed on `(source, external)`, the
/// source becomes `Validated` with its last-synced timestamp set to
/// `now`, and the completion event reports how many rows were actually
/// new. Re-applying the same rows inserts nothing further.
pub fn apply_sync_success(
    store: &mut Store,
    source_id: &str,
    rows: Vec<ListingRow>,
    now: &str,
) -> (r: (usize, SyncEvent))
    requires
        old(store).wf(),
        old(store).next_id + rows@.len() <= u64::MAX,
        rows@.len() <= i32::MAX,
    ensures
        final(store).wf(),
        final(store).settings == old(store).settings,
        final(store).creators == old(store).creators,
        final(store).credentials == old(store).credentials,
        final(store).warehouse_items == old(store).warehouse_items,
        exists|reqs: Seq<CreateFeedItemRequest>|
            {
                &&& #[trigger] reqs.len() == rows@.len()
                &&& (forall|k: int|
                    0 <= k < rows@.len() ==> #[trigger] row_request(
                        reqs[k],
                        source_id@,
                        rows@[k],
                    ))
                &&& {
                    let (out, nx) = Store::batch_insert_v(
                        Store::feed_items_view(old(store).feed_items@),
                        old(store).next_id as nat,
                        reqs,
                        now@,
                    );
                    Store::feed_items_view(final(store).feed_items@) == out && final(store).next_id as nat == nx
                }
            },
        final(store).feed_items@.len() >= old(store).feed_items@.len(),
        forall|j: int|
            0 <= j < old(store).feed_items@.len() ==> final(store).feed_items@[j] == #[trigger] old(store).feed_items@[j],
        r.0 == final(store).feed_items@.len() - old(store).feed_items@.len(),
        old(store).has_source(source_id@) ==> {
            let i = old(store).source_index_of(source_id@);
            &&& final(store).sources@[i]@ == SourceView {
                status: SourceStatus::Validated,
                last_synced_at: Some(now@),
                ..old(store).sources@[i]@
            }
            &&& forall|j: int|
                0 <= j < old(store).sources@.len() && j != i ==> final(store).sources@[j]
                    == #[trigger] old(store).sources@[j]
        },
        !old(store).has_source(source_id@) ==> final(store).sources == old(store).sources,
        r.1.source_id@ == source_id@,
        r.1.status@ == "completed"@,
        r.1.message is Some && r.1.message->0@ == "Found "@ + dec_digits(r.0 as nat)
            + " new items"@,
        r.1.new_items == Some(r.0 as i32),
{
    let ghost pre = *store;
    let n = rows.len();
    let mut requests: Vec<CreateFeedItemRequest> = Vec::new();
    let mut rows_m = rows;
    let mut i: usize = 0;
    while i < n
        invariant
            n == rows_m@.len(),
            i <= n,
            requests@.len() == i,
            forall|k: int|
                0 <= k < i ==> #[trigger] row_request(requests@[k], source_id@, rows_m@[k]),
        decreases n - i,
    {
        let row = &rows_m[i];
        let published_at = match &row.upload_date {
            Some(d) => YouTubeFetcher::parse_upload_date(d.as_str()),
            None => None,
        };
        let request = CreateFeedItemRequest {
            source_id: source_id.to_owned(),
            external_id: row.id.clone(),
            title: row.title.clone(),
            thumbnail_url: crate::model::clone_opt_string(&row.thumbnail),
            published_at,
            duration: row.duration,
        };
        proof {
            assert(row_request(request, source_id@, rows_m@[i as int]));
        }
        requests.push(request);
        i += 1;
    }
    let ghost reqs = requests@;
    let count = store.create_feed_items_batch(requests, now);
    let ghost mid = *store;
    store.mark_source_synced(source_id, now);
    proof {
        if pre.has_source(source_id@) {
            pre.lemma_source_index(source_id@);
        }
    }
    let mut message = String::from_str("Found ");
    let count_text = crate::numbers::u64_to_string(count as u64);
    message.append(count_text.as_str());
    message.append(" new items");
    proof {
        assert(message@ =~= "Found "@ + dec_digits(count as nat) + " new items"@);
    }
    let event = SyncEvent {
        source_id: source_id.to_owned(),
        status: String::from_str("completed"),
        message: Some(message),
        new_items: Some(count as i32),
    };
    (count, event)
}

} // verus!
