//! The download orchestrator: a bounded command queue, a fixed-size
//! concurrency budget, cooperative cancellation, and the reconciliation
//! of download outcomes into persisted feed item and warehouse state.
//!
//! The blocking work — spawning the fetch tool and reading its output —
//! happens outside this crate; the orchestrator is driven as a state
//! machine: commands are queued, slots are acquired, output lines are
//! observed one at a time, and each job ends in exactly one call of
//! [`DownloadManager::finish_download`].

use vstd::prelude::*;
use vstd::string::StringExecFns;
use crate::adapter::{download_args, youtube_watch_url, youtube_watch_url_spec};
use crate::events::{
    CoreError, DownloadCompletedEvent, DownloadErrorEvent, DownloadProgressEvent,
    DownloadStartedEvent,
};
use crate::model::{CreateWarehouseItemRequest, DownloadStatus, FeedItemView};
use crate::progress::{parse_progress_line, progress_of};
use crate::sanitize::{build_output_path, output_path_spec};
use crate::store::Store;
use crate::text::{chars_contain, chars_of, contains_seq, str_eq};

verus! {

/// How many downloads may run at once.
pub const CONCURRENT_DOWNLOADS: usize = 2;

/// How many commands the queue admits.
pub const COMMAND_QUEUE_CAPACITY: usize = 100;

/// A command accepted by the download orchestrator.
pub enum DownloadCommand {
    Download { feed_item_ids: Vec<String> },
    Cancel { feed_item_id: String },
}

/// One legal change of a feed item's persisted download status, as the
/// download path performs them: a download starts on an item that is
/// not downloaded (or errored, for a retry), a running download ends
/// downloaded or in error, and a failure before the download started
/// marks the item errored. A downloaded item never changes again.
pub open spec fn download_status_step(a: DownloadStatus, b: DownloadStatus) -> bool {
    ||| a == b
    ||| ((a == DownloadStatus::NotDownloaded || a == DownloadStatus::Error) && b
        == DownloadStatus::Downloading)
    ||| (a == DownloadStatus::Downloading && (b == DownloadStatus::Downloaded || b
        == DownloadStatus::Error))
    ||| (a == DownloadStatus::NotDownloaded && b == DownloadStatus::Error)
}

/// A sequence of persisted statuses an item can go through, starting
/// not downloaded, each change a legal step.
pub open spec fn valid_status_trace(t: Seq<DownloadStatus>) -> bool {
    &&& t.len() > 0
    &&& t[0] == DownloadStatus::NotDownloaded
    &&& forall|i: int| 0 <= i < t.len() - 1 ==> download_status_step(#[trigger] t[i], t[i + 1])
}

/// In any legal status history, `Downloaded` never appears before
/// `Downloading`: a download that completed was first observed running.
pub proof fn lemma_downloaded_after_downloading(t: Seq<DownloadStatus>, i: int)
    requires
        valid_status_trace(t),
        0 <= i < t.len(),
        t[i] == DownloadStatus::Downloaded,
    ensures
        exists|j: int| 0 <= j < i && t[j] == DownloadStatus::Downloading,
    decreases i,
{
    assert(i > 0);
    assert(download_status_step(t[i - 1], t[i]));
    if t[i - 1] == DownloadStatus::Downloading {
        assert(0 <= i - 1 < i && t[i - 1] == DownloadStatus::Downloading);
    } else {
        assert(t[i - 1] == DownloadStatus::Downloaded);
        assert(valid_status_trace(t.take(i)));
        lemma_downloaded_after_downloading(t.take(i), i - 1);
        let j = choose|j: int| 0 <= j < i - 1 && t.take(i)[j] == DownloadStatus::Downloading;
        assert(t[j] == DownloadStatus::Downloading);
    }
}

/// What acquiring a slot decided.
pub enum SlotDecision {
    /// Nothing is waiting, or the concurrency budget is used up.
    Idle,
    /// The next job was cancelled before it got a slot: it is dropped
    /// without any side effect, and in particular the fetch tool is
    /// never invoked for it.
    Abort(String),
    /// The next job holds a slot and may start.
    Start(String),
}

/// What one observed output line asks for.
pub enum LineAction {
    /// Cancellation was observed: the subprocess is to be killed and
    /// the job ends cancelled.
    Kill,
    /// The line parsed as a progress report.
    Progress(DownloadProgressEvent),
    /// Not a progress line: ignored without error.
    Ignore,
}

/// Everything a worker needs to run one download.
pub struct DownloadPlan {
    pub feed_item_id: String,
    pub title: String,
    pub video_url: String,
    pub output_path: String,
    pub args: Vec<String>,
}

/// What planning a download decided.
pub enum BeginOutcome {
    /// The item is now `Downloading`; run the fetch tool with the
    /// plan's arguments.
    Run(DownloadPlan),
    /// The item is already downloading or downloaded: nothing to do.
    Skipped,
    /// The download cannot start; the item is marked errored.
    Failed(CoreError),
}

/// How a finished download ended.
pub enum DownloadOutcome {
    /// The fetch tool exited successfully; the file has this size.
    Success { file_size: i64 },
    /// The fetch tool failed to spawn or exited with an error.
    Failure,
    /// The tool's error output indicated an authentication failure.
    AuthFailure,
    /// Cancellation was observed mid-stream and the subprocess killed.
    Cancelled,
    /// The worker unit terminated abnormally.
    Crashed,
}

impl DownloadOutcome {
    /// The classified error of a failed outcome.
    pub open spec fn error_spec(self) -> CoreError {
        match self {
            DownloadOutcome::Success { .. } => CoreError::ToolExecutionFailed,
            DownloadOutcome::Failure => CoreError::ToolExecutionFailed,
            DownloadOutcome::AuthFailure => CoreError::AuthenticationFailed,
            DownloadOutcome::Cancelled => CoreError::Cancelled,
            DownloadOutcome::Crashed => CoreError::InternalTaskFailure,
        }
    }
}

/// What finishing a download reported.
pub enum FinishReport {
    /// The item is `Downloaded` and linked to this new warehouse item.
    Completed(DownloadCompletedEvent),
    /// The item is marked errored, with this event's message.
    Failed(DownloadErrorEvent),
    /// The feed item no longer exists; nothing was persisted.
    Gone,
}

/// The download orchestrator's in-memory coordination state.
pub struct DownloadManager {
    /// Commands admitted but not yet dispatched.
    pub queue: Vec<DownloadCommand>,
    /// Jobs accepted and waiting for a slot, in order.
    pub pending: Vec<String>,
    /// Jobs currently holding a slot.
    pub running: Vec<String>,
    /// Items whose cancellation was requested and not yet resolved.
    pub cancelled: Vec<String>,
    /// The concurrency budget.
    pub capacity: usize,
}

impl DownloadManager {
    /// An item is in the cancellation set.
    pub open spec fn is_cancelled(self, id: Seq<char>) -> bool {
        exists|i: int| 0 <= i < self.cancelled@.len() && self.cancelled@[i]@ == id
    }

    /// The cancellation set holds each item at most once.
    pub open spec fn cancelled_unique(self) -> bool {
        forall|i: int, j: int|
            0 <= i < j < self.cancelled@.len() ==> (#[trigger] self.cancelled@[i])@ != (
            #[trigger] self.cancelled@[j])@
    }

    /// At most `capacity` jobs ever hold slots at once, and the
    /// cancellation set is a set.
    pub open spec fn wf(self) -> bool {
        self.running@.len() <= self.capacity && self.cancelled_unique()
    }

    /// A fresh orchestrator with the fixed concurrency budget.
    pub fn new() -> (r: DownloadManager)
        ensures
            r.wf(),
            r.queue@.len() == 0,
            r.pending@.len() == 0,
            r.running@.len() == 0,
            r.cancelled@.len() == 0,
            r.capacity == CONCURRENT_DOWNLOADS,
    {
        DownloadManager {
            queue: Vec::new(),
            pending: Vec::new(),
            running: Vec::new(),
            cancelled: Vec::new(),
            capacity: CONCURRENT_DOWNLOADS,
        }
    }

    /// Bounded concurrency (the concurrency budget is never exceeded):
    /// however many downloads are queued, at most `capacity` are in
    /// flight at any point.
    pub proof fn lemma_concurrency_bounded(self)
        requires
            self.wf(),
        ensures
            self.running@.len() <= self.capacity,
    {
    }

    /// Admits a batch of downloads into the command queue. Admission
    /// says nothing about the jobs' outcomes; it fails only when the
    /// queue is full.
    pub fn queue_downloads(&mut self, feed_item_ids: Vec<String>) -> (r: Result<(), String>)
        ensures
            final(self).pending == old(self).pending,
            final(self).running == old(self).running,
            final(self).cancelled == old(self).cancelled,
            final(self).capacity == old(self).capacity,
            old(self).queue@.len() < COMMAND_QUEUE_CAPACITY ==> r is Ok && final(self).queue@.len()
                == old(self).queue@.len() + 1 && final(self).queue@.last() == (
            DownloadCommand::Download { feed_item_ids }),
            old(self).queue@.len() >= COMMAND_QUEUE_CAPACITY ==> r is Err && final(self).queue
                == old(self).queue,
            old(self).wf() ==> final(self).wf(),
    {
        if self.queue.len() < COMMAND_QUEUE_CAPACITY {
            self.queue.push(DownloadCommand::Download { feed_item_ids });
            Ok(())
        } else {
            Err(String::from_str("Failed to queue downloads"))
        }
    }

    /// Admits a cancellation request into the command queue.
    pub fn cancel_download(&mut self, feed_item_id: String) -> (r: Result<(), String>)
        ensures
            final(self).pending == old(self).pending,
            final(self).running == old(self).running,
            final(self).cancelled == old(self).cancelled,
            final(self).capacity == old(self).capacity,
            old(self).queue@.len() < COMMAND_QUEUE_CAPACITY ==> r is Ok && final(self).queue@.len()
                == old(self).queue@.len() + 1 && final(self).queue@.last() == (
            DownloadCommand::Cancel { feed_item_id }),
            old(self).queue@.len() >= COMMAND_QUEUE_CAPACITY ==> r is Err && final(self).queue
                == old(self).queue,
            old(self).wf() ==> final(self).wf(),
    {
        if self.queue.len() < COMMAND_QUEUE_CAPACITY {
            self.queue.push(DownloadCommand::Cancel { feed_item_id });
            Ok(())
        } else {
            Err(String::from_str("Failed to cancel download"))
        }
    }

    /// Dispatches the oldest queued command: a download command moves
    /// its items to the pending list, a cancel command records the item
    /// in the cancellation set. Returns whether a command was
    /// dispatched.
    pub fn step_command(&mut self) -> (r: bool)
        requires
            old(self).wf(),
        ensures
            final(self).wf(),
            r == (old(self).queue@.len() > 0),
            !r ==> *final(self) == *old(self),
            final(self).running == old(self).running,
            final(self).capacity == old(self).capacity,
            r ==> final(self).queue@ == old(self).queue@.drop_first(),
            r ==> match old(self).queue@[0] {
                DownloadCommand::Download { feed_item_ids } => {
                    &&& final(self).pending@ == old(self).pending@ + feed_item_ids@
                    &&& final(self).cancelled == old(self).cancelled
                },
                DownloadCommand::Cancel { feed_item_id } => {
                    &&& final(self).pending == old(self).pending
                    &&& final(self).is_cancelled(feed_item_id@)
                    &&& forall|s: Seq<char>|
                        s != feed_item_id@ ==> #[trigger] final(self).is_cancelled(s) == old(self).is_cancelled(s)
                },
            },
    {
        if self.queue.len() == 0 {
            return false;
        }
        let cmd = self.queue.remove(0);
        proof {
            assert(self.queue@ =~= old(self).queue@.drop_first());
        }
        match cmd {
            DownloadCommand::Download { feed_item_ids } => {
                let mut ids = feed_item_ids;
                let ghost moved = ids@;
                self.pending.append(&mut ids);
                proof {
                    assert(self.pending@ =~= old(self).pending@ + moved);
                }
            },
            DownloadCommand::Cancel { feed_item_id } => {
                if !self.check_cancelled(feed_item_id.as_str()) {
                    let ghost pre = self.cancelled@;
                    self.cancelled.push(feed_item_id);
                    proof {
                        let k = pre.len() as int;
                        assert(self.cancelled@[k]@ == self.cancelled@[k]@);
                        assert forall|s: Seq<char>|
                            s != self.cancelled@[k]@ implies #[trigger] self.is_cancelled(s)
                            == old(self).is_cancelled(s) by {
                            if self.is_cancelled(s) {
                                let m = choose|m: int|
                                    0 <= m < self.cancelled@.len() && (
                                    #[trigger] self.cancelled@[m])@ == s;
                                assert(pre[m]@ == s);
                            }
                            if old(self).is_cancelled(s) {
                                let m = choose|m: int|
                                    0 <= m < pre.len() && (#[trigger] pre[m])@ == s;
                                assert(self.cancelled@[m]@ == s);
                            }
                        }
                        assert forall|a: int, b: int|
                            0 <= a < b < self.cancelled@.len() implies (
                            #[trigger] self.cancelled@[a])@ != (#[trigger] self.cancelled@[b])@
                            by {
                            if b == k {
                                assert(self.cancelled@[a] == pre[a]);
                                assert(!old(self).is_cancelled(self.cancelled@[k]@));
                            } else {
                                assert(self.cancelled@[a] == pre[a]);
                                assert(self.cancelled@[b] == pre[b]);
                            }
                        }
                    }
                }
            },
        }
        true
    }

    /// Tries to hand the next pending job a slot. A job cancelled
    /// before it acquires a slot is aborted: it is removed without any
    /// side effect, its cancellation is resolved, and — since only a
    /// `Start` decision ever leads to the fetch tool — the tool is
    /// never invoked for it.
    pub fn acquire_slot(&mut self) -> (r: SlotDecision)
        requires
            old(self).wf(),
        ensures
            final(self).wf(),
            final(self).queue == old(self).queue,
            final(self).capacity == old(self).capacity,
            (old(self).pending@.len() == 0 || old(self).running@.len() >= old(self).capacity)
                ==> (r is Idle && *final(self) == *old(self)),
            old(self).pending@.len() > 0 && old(self).running@.len() < old(self).capacity ==> {
                let head = old(self).pending@[0];
                &&& final(self).pending@ == old(self).pending@.drop_first()
                &&& if old(self).is_cancelled(head@) {
                    &&& r == SlotDecision::Abort(head)
                    &&& final(self).running == old(self).running
                    &&& !final(self).is_cancelled(head@)
                } else {
                    &&& r == SlotDecision::Start(head)
                    &&& final(self).running@ == old(self).running@.push(head)
                    &&& final(self).cancelled@ == old(self).cancelled@
                }
            },
    {
        if self.pending.len() == 0 || self.running.len() >= self.capacity {
            return SlotDecision::Idle;
        }
        let head = self.pending.remove(0);
        proof {
            assert(self.pending@ =~= old(self).pending@.drop_first());
        }
        if self.remove_cancelled(head.as_str()) {
            SlotDecision::Abort(head)
        } else {
            self.running.push(head.clone());
            SlotDecision::Start(head)
        }
    }

    /// Removes an item from the cancellation set, returning whether it
    /// was there.
    fn remove_cancelled(&mut self, id: &str) -> (r: bool)
        requires
            old(self).cancelled_unique(),
        ensures
            final(self).cancelled_unique(),
            r == old(self).is_cancelled(id@),
            !final(self).is_cancelled(id@),
            final(self).queue == old(self).queue,
            final(self).pending == old(self).pending,
            final(self).running == old(self).running,
            final(self).capacity == old(self).capacity,
            !r ==> final(self).cancelled@ == old(self).cancelled@,
            forall|s: Seq<char>|
                s != id@ ==> #[trigger] final(self).is_cancelled(s) == old(self).is_cancelled(s),
    {
        let n = self.cancelled.len();
        let mut i: usize = 0;
        while i < n
            invariant
                *self == *old(self),
                old(self).cancelled_unique(),
                n == self.cancelled@.len(),
                i <= n,
                forall|j: int| 0 <= j < i ==> (#[trigger] self.cancelled@[j])@ != id@,
            decreases n - i,
        {
            if str_eq(self.cancelled[i].as_str(), id) {
                self.cancelled.remove(i);
                proof {
                    let pre = old(self).cancelled@;
                    assert(self.cancelled@ =~= pre.subrange(0, i as int) + pre.subrange(
                        i as int + 1,
                        pre.len() as int,
                    ));
                    assert forall|a: int, b: int|
                        0 <= a < b < self.cancelled@.len() implies (
                        #[trigger] self.cancelled@[a])@ != (#[trigger] self.cancelled@[b])@ by {
                        let a2 = if a < i {
                            a
                        } else {
                            a + 1
                        };
                        let b2 = if b < i {
                            b
                        } else {
                            b + 1
                        };
                        assert(self.cancelled@[a] == pre[a2]);
                        assert(self.cancelled@[b] == pre[b2]);
                        assert(pre[a2]@ != pre[b2]@);
                    }
                    assert forall|k: int|
                        0 <= k < self.cancelled@.len() implies (#[trigger] self.cancelled@[k])@
                        != id@ by {
                        let k2 = if k < i {
                            k
                        } else {
                            k + 1
                        };
                        assert(self.cancelled@[k] == pre[k2]);
                        if k2 != i {
                            assert(pre[k2]@ != pre[i as int]@);
                        }
                    }
                    assert(!self.is_cancelled(id@));
                    assert forall|s: Seq<char>|
                        s != id@ implies #[trigger] self.is_cancelled(s) == old(self).is_cancelled(s) by {
                        if self.is_cancelled(s) {
                            let k = choose|k: int|
                                0 <= k < self.cancelled@.len() && (
                                #[trigger] self.cancelled@[k])@ == s;
                            let k2 = if k < i {
                                k
                            } else {
                                k + 1
                            };
                            assert(pre[k2]@ == s);
                        }
                        if old(self).is_cancelled(s) {
                            let j = choose|j: int|
                                0 <= j < pre.len() && (#[trigger] pre[j])@ == s;
                            let j2 = if j < i {
                                j
                            } else {
                                j - 1
                            };
                            assert(j != i);
                            assert(self.cancelled@[j2] == pre[j]);
                            assert(self.cancelled@[j2]@ == s);
                        }
                    }
                }
                return true;
            }
            i += 1;
        }
        false
    }

    /// The `download_started` event for a job.
    pub fn download_started_event(feed_item_id: &str) -> (r: DownloadStartedEvent)
        ensures
            r.feed_item_id@ == feed_item_id@,
    {
        DownloadStartedEvent { feed_item_id: feed_item_id.to_owned() }
    }

    /// Observes one line of the running fetch tool's output for a job.
    /// If the job has been cancelled, the subprocess is to be killed.
    /// Otherwise a line carrying the progress marker and a percent sign
    /// is parsed into a progress event; any other line is ignored
    /// without error.
    pub fn observe_line(&self, feed_item_id: &str, line: &str) -> (r: LineAction)
        ensures
            self.is_cancelled(feed_item_id@) ==> r is Kill,
            !self.is_cancelled(feed_item_id@) ==> {
                if contains_seq(line@, "[download]"@) && contains_seq(line@, "%"@) {
                    match progress_of(line@) {
                        Some(p) => if p.0 <= u32::MAX {
                            match r {
                                LineAction::Progress(ev) => {
                                    &&& ev.feed_item_id@ == feed_item_id@
                                    &&& ev.percent.milli == p.0
                                    &&& ev.speed@ == p.1
                                },
                                _ => false,
                            }
                        } else {
                            r is Ignore
                        },
                        None => r is Ignore,
                    }
                } else {
                    r is Ignore
                }
            },
    {
        if self.check_cancelled(feed_item_id) {
            return LineAction::Kill;
        }
        let lv = chars_of(line);
        let marker = chars_of("[download]");
        let percent_sign = chars_of("%");
        if !chars_contain(&lv, &marker) || !chars_contain(&lv, &percent_sign) {
            return LineAction::Ignore;
        }
        match parse_progress_line(line) {
            Some((percent, speed)) => LineAction::Progress(
                DownloadProgressEvent { feed_item_id: feed_item_id.to_owned(), percent, speed },
            ),
            None => LineAction::Ignore,
        }
    }

    /// Whether this item's cancellation has been requested.
    pub fn check_cancelled(&self, feed_item_id: &str) -> (r: bool)
        ensures
            r == self.is_cancelled(feed_item_id@),
    {
        let n = self.cancelled.len();
        let mut i: usize = 0;
        while i < n
            invariant
                n == self.cancelled@.len(),
                i <= n,
                forall|j: int| 0 <= j < i ==> (#[trigger] self.cancelled@[j])@ != feed_item_id@,
            decreases n - i,
        {
            if str_eq(self.cancelled[i].as_str(), feed_item_id) {
                return true;
            }
            i += 1;
        }
        false
    }
}

impl DownloadManager {
    /// A download the orchestrator must start: the item exists and is
    /// not yet downloading or downloaded, its source exists on the
    /// YouTube platform, the source's creator exists, and the settings
    /// record (for the library root) exists.
    pub open spec fn download_ready(store: Store, feed_item_id: Seq<char>) -> bool {
        &&& store.has_feed_item(feed_item_id)
        &&& {
            let item = store.feed_items@[store.feed_index_of(feed_item_id)]@;
            &&& (item.download_status == DownloadStatus::NotDownloaded || item.download_status
                == DownloadStatus::Error)
            &&& store.has_source(item.source_id)
            &&& {
                let s = store.sources@[store.source_index_of(item.source_id)];
                &&& s.platform@ == "youtube"@
                &&& store.has_creator(s.creator_id@)
                &&& store.settings is Some
            }
        }
    }

    /// Plans one download: resolves the feed item and its source and
    /// creator, builds the destination path and the source URL, and
    /// marks the item `Downloading`. A missing record fails the job
    /// with a classified error and marks the item errored; a platform
    /// other than YouTube fails it as an unknown platform; an item
    /// already downloading or downloaded is skipped untouched. Every
    /// change of the item's persisted status is a legal
    /// [`download_status_step`].
    pub fn begin_download(store: &mut Store, feed_item_id: &str) -> (r: BeginOutcome)
        requires
            old(store).wf(),
        ensures
            final(store).wf(),
            final(store).next_id == old(store).next_id,
            final(store).settings == old(store).settings,
            final(store).creators == old(store).creators,
            final(store).sources == old(store).sources,
            final(store).credentials == old(store).credentials,
            final(store).warehouse_items == old(store).warehouse_items,
            final(store).feed_items@.len() == old(store).feed_items@.len(),
            forall|j: int|
                0 <= j < old(store).feed_items@.len() && (#[trigger] old(store).feed_items@[j]).id@ != feed_item_id@ ==> final(store).feed_items@[j] == old(store).feed_items@[j],
            old(store).has_feed_item(feed_item_id@) ==> {
                let i = old(store).feed_index_of(feed_item_id@);
                &&& final(store).feed_items@[i]@ == FeedItemView {
                    download_status: final(store).feed_items@[i]@.download_status,
                    ..old(store).feed_items@[i]@
                }
                &&& download_status_step(
                    old(store).feed_items@[i]@.download_status,
                    final(store).feed_items@[i]@.download_status,
                )
            },
            !old(store).has_feed_item(feed_item_id@) ==> *final(store) == *old(store) && r == (
            BeginOutcome::Failed(CoreError::ItemOrSourceNotFound)),
            Self::download_ready(*old(store), feed_item_id@) ==> r is Run,
            old(store).has_feed_item(feed_item_id@) ==> {
                let item = old(store).feed_items@[old(store).feed_index_of(feed_item_id@)]@;
                (item.download_status == DownloadStatus::NotDownloaded || item.download_status
                    == DownloadStatus::Error) && old(store).has_source(item.source_id) && {
                    let s = old(store).sources@[old(store).source_index_of(item.source_id)];
                    s.platform@ != "youtube"@ && old(store).has_creator(s.creator_id@) && old(
                        store,
                    ).settings is Some
                } ==> r == BeginOutcome::Failed(CoreError::UnknownPlatform)
            },
            r == BeginOutcome::Failed(CoreError::ItemOrSourceNotFound) ==> (!old(
                store,
            ).has_feed_item(feed_item_id@) || {
                let item = old(store).feed_items@[old(store).feed_index_of(feed_item_id@)]@;
                ||| !old(store).has_source(item.source_id)
                ||| !old(store).has_creator(
                    old(store).sources@[old(store).source_index_of(item.source_id)].creator_id@,
                )
                ||| old(store).settings is None
            }),
            match r {
                BeginOutcome::Run(plan) => {
                    let i = old(store).feed_index_of(feed_item_id@);
                    let item = old(store).feed_items@[i]@;
                    &&& old(store).has_feed_item(feed_item_id@)
                    &&& (item.download_status == DownloadStatus::NotDownloaded
                        || item.download_status == DownloadStatus::Error)
                    &&& final(store).feed_items@[i]@.download_status
                        == DownloadStatus::Downloading
                    &&& plan.feed_item_id@ == feed_item_id@
                    &&& plan.title@ == item.title
                    &&& plan.video_url@ == youtube_watch_url_spec(item.external_id)
                    &&& old(store).has_source(item.source_id)
                    &&& {
                        let s = old(store).sources@[old(store).source_index_of(item.source_id)];
                        &&& s.platform@ == "youtube"@
                        &&& old(store).has_creator(s.creator_id@)
                        &&& old(store).settings is Some
                        &&& exists|c: int|
                            0 <= c < old(store).creators@.len() && (#[trigger] old(store).creators@[c]).creator_matches(s.creator_id@) && plan.output_path@
                                == output_path_spec(
                                old(store).settings->0@.library_path,
                                old(store).creators@[c].name@,
                                s.platform@,
                                item.external_id,
                                item.title,
                            )
                    }
                    &&& plan.args@.len() == 7
                    &&& plan.args@[3]@ == plan.output_path@
                    &&& plan.args@[6]@ == plan.video_url@
                },
                BeginOutcome::Skipped => {
                    let i = old(store).feed_index_of(feed_item_id@);
                    &&& *final(store) == *old(store)
                    &&& old(store).has_feed_item(feed_item_id@)
                    &&& (old(store).feed_items@[i]@.download_status
                        == DownloadStatus::Downloading || old(store).feed_items@[i]@.download_status == DownloadStatus::Downloaded)
                },
                BeginOutcome::Failed(e) => {
                    &&& (e == CoreError::ItemOrSourceNotFound || e == CoreError::UnknownPlatform)
                    &&& old(store).has_feed_item(feed_item_id@) ==> final(store).feed_items@[old(store).feed_index_of(feed_item_id@)]@.download_status
                        == DownloadStatus::Error
                    &&& e == CoreError::UnknownPlatform ==> {
                        let item = old(store).feed_items@[old(store).feed_index_of(
                            feed_item_id@,
                        )]@;
                        &&& old(store).has_feed_item(feed_item_id@)
                        &&& old(store).has_source(item.source_id)
                        &&& old(store).sources@[old(store).source_index_of(
                            item.source_id,
                        )].platform@ != "youtube"@
                    }
                },
            },
    {
        let item = match store.get_feed_item(feed_item_id) {
            Some(item) => item,
            None => {
                proof {
                    assert(!old(store).has_feed_item(feed_item_id@));
                }
                store.update_feed_item_status(feed_item_id, DownloadStatus::Error);
                return BeginOutcome::Failed(CoreError::ItemOrSourceNotFound);
            },
        };
        proof {
            old(store).lemma_feed_index(feed_item_id@);
        }
        match item.download_status {
            DownloadStatus::Downloading => {
                return BeginOutcome::Skipped;
            },
            DownloadStatus::Downloaded => {
                return BeginOutcome::Skipped;
            },
            _ => {},
        }
        let source = match store.get_source(item.source_id.as_str()) {
            Some(source) => source,
            None => {
                store.update_feed_item_status(feed_item_id, DownloadStatus::Error);
                proof {
                    old(store).lemma_feed_index(feed_item_id@);
                }
                return BeginOutcome::Failed(CoreError::ItemOrSourceNotFound);
            },
        };
        proof {
            old(store).lemma_source_index(item.source_id@);
        }
        let creator = match store.get_creator(source.creator_id.as_str()) {
            Some(creator) => creator,
            None => {
                store.update_feed_item_status(feed_item_id, DownloadStatus::Error);
                return BeginOutcome::Failed(CoreError::ItemOrSourceNotFound);
            },
        };
        let settings = match store.get_app_settings() {
            Some(settings) => settings,
            None => {
                store.update_feed_item_status(feed_item_id, DownloadStatus::Error);
                return BeginOutcome::Failed(CoreError::ItemOrSourceNotFound);
            },
        };
        if !str_eq(source.platform.as_str(), "youtube") {
            store.update_feed_item_status(feed_item_id, DownloadStatus::Error);
            return BeginOutcome::Failed(CoreError::UnknownPlatform);
        }
        let video_url = youtube_watch_url(item.external_id.as_str());
        let output_path = build_output_path(
            settings.library_path.as_str(),
            creator.name.as_str(),
            source.platform.as_str(),
            item.external_id.as_str(),
            item.title.as_str(),
        );
        store.update_feed_item_status(feed_item_id, DownloadStatus::Downloading);
        let args = download_args(output_path.as_str(), video_url.as_str());
        BeginOutcome::Run(
            DownloadPlan {
                feed_item_id: feed_item_id.to_owned(),
                title: item.title,
                video_url,
                output_path,
                args,
            },
        )
    }

    /// Removes the first slot held under this id, if any.
    fn release_slot(&mut self, id: &str)
        ensures
            final(self).queue == old(self).queue,
            final(self).pending == old(self).pending,
            final(self).cancelled == old(self).cancelled,
            final(self).capacity == old(self).capacity,
            final(self).running@.len() <= old(self).running@.len(),
            old(self).wf() ==> final(self).wf(),
    {
        let n = self.running.len();
        let mut i: usize = 0;
        while i < n
            invariant
                *self == *old(self),
                n == self.running@.len(),
                i <= n,
            decreases n - i,
        {
            if str_eq(self.running[i].as_str(), id) {
                self.running.remove(i);
                return ;
            }
            i += 1;
        }
    }

    /// Reconciles a finished download. The job's slot is released and
    /// its cancellation resolved. On success an artifact is created
    /// (provenance fetched), the feed item becomes `Downloaded` and
    /// the two records are linked; on any failure the feed item is
    /// marked errored with the outcome's classified message. One job's
    /// outcome never touches another item's state, and every status
    /// change is a legal [`download_status_step`].
    pub fn finish_download(
        &mut self,
        store: &mut Store,
        feed_item_id: &str,
        outcome: DownloadOutcome,
        output_path: &str,
        now: &str,
    ) -> (r: FinishReport)
        requires
            old(self).wf(),
            old(store).wf(),
            old(store).can_alloc(),
        ensures
            final(self).wf(),
            final(store).wf(),
            final(self).queue == old(self).queue,
            final(self).pending == old(self).pending,
            final(self).capacity == old(self).capacity,
            final(self).running@.len() <= old(self).running@.len(),
            !final(self).is_cancelled(feed_item_id@),
            forall|s: Seq<char>|
                s != feed_item_id@ ==> #[trigger] final(self).is_cancelled(s) == old(self).is_cancelled(s),
            final(store).settings == old(store).settings,
            final(store).creators == old(store).creators,
            final(store).sources == old(store).sources,
            final(store).credentials == old(store).credentials,
            final(store).feed_items@.len() == old(store).feed_items@.len(),
            forall|j: int|
                0 <= j < old(store).feed_items@.len() && (#[trigger] old(store).feed_items@[j]).id@ != feed_item_id@ ==> final(store).feed_items@[j] == old(store).feed_items@[j],
            old(store).has_feed_item(feed_item_id@) ==> {
                let i = old(store).feed_index_of(feed_item_id@);
                download_status_step(
                    old(store).feed_items@[i]@.download_status,
                    final(store).feed_items@[i]@.download_status,
                )
            },
            !old(store).has_feed_item(feed_item_id@) ==> r is Gone && final(store).warehouse_items
                == old(store).warehouse_items && final(store).feed_items == old(store).feed_items,
            old(store).has_feed_item(feed_item_id@) && outcome is Success && old(
                store,
            ).feed_items@[old(store).feed_index_of(feed_item_id@)]@.download_status
                == DownloadStatus::Downloading ==> r is Completed,
            old(store).has_feed_item(feed_item_id@) && !(outcome is Success) && old(
                store,
            ).feed_items@[old(store).feed_index_of(feed_item_id@)]@.download_status
                != DownloadStatus::Downloaded ==> r is Failed,
            r is Gone ==> (!old(store).has_feed_item(feed_item_id@) || {
                let status = old(store).feed_items@[old(store).feed_index_of(
                    feed_item_id@,
                )]@.download_status;
                ||| (outcome is Success && status != DownloadStatus::Downloading)
                ||| (!(outcome is Success) && status == DownloadStatus::Downloaded)
            }),
            match r {
                FinishReport::Completed(ev) => {
                    let i = old(store).feed_index_of(feed_item_id@);
                    &&& outcome is Success
                    &&& old(store).has_feed_item(feed_item_id@)
                    &&& old(store).feed_items@[i]@.download_status == DownloadStatus::Downloading
                    &&& final(store).feed_items@[i]@.download_status
                        == DownloadStatus::Downloaded
                    &&& final(store).feed_items@[i]@.warehouse_item_id == Some(
                        ev.warehouse_item_id@,
                    )
                    &&& final(store).warehouse_items@.len() == old(store).warehouse_items@.len()
                        + 1
                    &&& ev.feed_item_id@ == feed_item_id@
                    &&& {
                        let w = final(store).warehouse_items@.last()@;
                        &&& w.id == ev.warehouse_item_id@
                        &&& w.title == old(store).feed_items@[i]@.title
                        &&& w.file_path == output_path@
                        &&& w.feed_item_id == Some(feed_item_id@)
                        &&& w.is_manual_import == false
                        &&& w.imported_at == now@
                        &&& (outcome matches DownloadOutcome::Success { file_size } ==> w.file_size
                            == file_size)
                    }
                },
                FinishReport::Failed(ev) => {
                    let i = old(store).feed_index_of(feed_item_id@);
                    &&& old(store).has_feed_item(feed_item_id@)
                    &&& final(store).feed_items@[i]@.download_status == DownloadStatus::Error
                    &&& ev.feed_item_id@ == feed_item_id@
                    &&& ev.error@ == outcome.error_spec().message_spec()
                    &&& final(store).warehouse_items == old(store).warehouse_items
                },
                FinishReport::Gone => {
                    &&& final(store).warehouse_items == old(store).warehouse_items
                    &&& final(store).feed_items == old(store).feed_items
                },
            },
    {
        self.release_slot(feed_item_id);
        self.remove_cancelled(feed_item_id);
        let item = match store.get_feed_item(feed_item_id) {
            Some(item) => item,
            None => {
                return FinishReport::Gone;
            },
        };
        proof {
            old(store).lemma_feed_index(feed_item_id@);
        }
        match outcome {
            DownloadOutcome::Success { file_size } => {
                match item.download_status {
                    DownloadStatus::Downloading => {},
                    _ => {
                        return FinishReport::Gone;
                    },
                }
                let original_url = match store.get_source(item.source_id.as_str()) {
                    Some(source) => {
                        if str_eq(source.platform.as_str(), "youtube") {
                            Some(youtube_watch_url(item.external_id.as_str()))
                        } else {
                            None
                        }
                    },
                    None => None,
                };
                let platform = match store.get_source(item.source_id.as_str()) {
                    Some(source) => Some(source.platform),
                    None => None,
                };
                let creator_id = match store.get_source(item.source_id.as_str()) {
                    Some(source) => source.creator_id,
                    None => String::from_str(""),
                };
                let request = CreateWarehouseItemRequest {
                    creator_id,
                    feed_item_id: None,
                    title: item.title,
                    file_path: output_path.to_owned(),
                    thumbnail_path: None,
                    platform,
                    original_url,
                    published_at: item.published_at,
                    duration: item.duration,
                    file_size,
                    is_manual_import: false,
                };
                let ghost pre_create = *store;
                let artifact = store.create_warehouse_item(request, now);
                proof {
                    store.lemma_feed_index(feed_item_id@);
                }
                store.update_feed_item_completed(feed_item_id, artifact.id.as_str());
                proof {
                    pre_create.lemma_feed_index(feed_item_id@);
                }
                FinishReport::Completed(
                    DownloadCompletedEvent {
                        feed_item_id: feed_item_id.to_owned(),
                        warehouse_item_id: artifact.id,
                    },
                )
            },
            _ => {
                match item.download_status {
                    DownloadStatus::Downloaded => {
                        return FinishReport::Gone;
                    },
                    _ => {},
                }
                store.update_feed_item_status(feed_item_id, DownloadStatus::Error);
                let error = match outcome {
                    DownloadOutcome::AuthFailure => CoreError::AuthenticationFailed,
                    DownloadOutcome::Cancelled => CoreError::Cancelled,
                    DownloadOutcome::Crashed => CoreError::InternalTaskFailure,
                    _ => CoreError::ToolExecutionFailed,
                };
                FinishReport::Failed(
                    DownloadErrorEvent {
                        feed_item_id: feed_item_id.to_owned(),
                        error: error.message(),
                    },
                )
            },
        }
    }
}

} // verus!
