//! The progress stream of one job: a replay of its stored state, followed by
//! the live events of the hub that concern it, up to a terminal one.

use vstd::prelude::*;
use crate::db::jobs::{get_job, job_of};
use crate::error::{AppError, AppErrorView};
use crate::ident::JobId;
use crate::models::job::{JobStatus, ProgressUpdate, ProgressUpdateView};
use crate::services::progress::{ProgressHub, ProgressReceiver, RecvOutcome};
use crate::services::queue::{job_from_record_with, job_view_of, JobQueueInner};
use crate::clock::Timestamp;

verus! {

/// The stream of the progress events of one job.
pub struct JobProgressStream {
    pub job_id: JobId,
    pub rx: ProgressReceiver,
    pub initial_sent: bool,
    pub initial_update: Option<ProgressUpdate>,
    pub terminated: bool,
}

/// What a `JobProgressStream` holds.
pub struct JobProgressStreamView {
    pub job_id: JobId,
    pub next: u64,
    pub initial_sent: bool,
    pub initial_update: Option<ProgressUpdateView>,
    pub terminated: bool,
}

impl View for JobProgressStream {
    type V = JobProgressStreamView;

    open spec fn view(&self) -> JobProgressStreamView {
        JobProgressStreamView {
            job_id: self.job_id,
            next: self.rx.next,
            initial_sent: self.initial_sent,
            initial_update: self.initial_update.deep_view(),
            terminated: self.terminated,
        }
    }
}

/// What a stream yields when it is polled.
pub enum StreamPoll {
    /// The next event of the job.
    Event(ProgressUpdate),
    /// The stream fell behind and the hub dropped this many events before the
    /// stream read them; some may have been events of the job. The reader
    /// should read the stored state of the job again.
    Lagged(u64),
    /// No event of the job is waiting; more may come.
    Pending,
    /// The stream has ended.
    Finished,
}

/// What a `StreamPoll` holds.
pub enum StreamPollView {
    Event(ProgressUpdateView),
    Lagged(u64),
    Pending,
    Finished,
}

impl View for StreamPoll {
    type V = StreamPollView;

    open spec fn view(&self) -> StreamPollView {
        match self {
            StreamPoll::Event(u) => StreamPollView::Event(u@),
            StreamPoll::Lagged(n) => StreamPollView::Lagged(*n),
            StreamPoll::Pending => StreamPollView::Pending,
            StreamPoll::Finished => StreamPollView::Finished,
        }
    }
}

/// Position of the first event of the job at or after `from`, or the length of
/// the history when there is none.
pub open spec fn next_match(history: Seq<ProgressUpdateView>, from: int, id: JobId) -> int
    decreases history.len() - from,
{
    if from < 0 || from >= history.len() {
        history.len() as int
    } else if history[from].job_id == id {
        from
    } else {
        next_match(history, from + 1, id)
    }
}

/// `next_match` is the least position from `from` on that holds an event of
/// the job.
pub proof fn lemma_next_match(history: Seq<ProgressUpdateView>, from: int, id: JobId)
    requires
        0 <= from,
    ensures
        next_match(history, from, id) <= history.len(),
        from <= history.len() ==> from <= next_match(history, from, id),
        forall|j: int| from <= j < next_match(history, from, id) ==> (#[trigger] history[j]).job_id
            != id,
        next_match(history, from, id) < history.len() ==> history[next_match(
            history,
            from,
            id,
        )].job_id == id,
    decreases history.len() - from,
{
    if from < history.len() && history[from].job_id != id {
        lemma_next_match(history, from + 1, id);
    }
}

/// What polling a stream yields, and the stream afterwards.
///
/// A stream that has ended stays ended. A stream that has not yet replayed
/// the stored state of its job yields that first, and ends with it when the
/// state is terminal. After that the stream yields the events of its job in
/// the order of the hub, skipping those of other jobs, and ends with the first
/// terminal one. A stream that has fallen behind the events that the hub
/// keeps is told how many it missed, and goes on with the oldest kept event.
pub open spec fn poll_of(
    stream: JobProgressStreamView,
    history: Seq<ProgressUpdateView>,
    oldest: nat,
) -> (JobProgressStreamView, StreamPollView) {
    if stream.terminated {
        (stream, StreamPollView::Finished)
    } else if !stream.initial_sent && stream.initial_update is Some {
        let first = stream.initial_update->0;
        (
            JobProgressStreamView {
                initial_sent: true,
                initial_update: None,
                terminated: first.status.is_terminal(),
                ..stream
            },
            StreamPollView::Event(first),
        )
    } else if stream.next < oldest {
        (
            JobProgressStreamView { initial_sent: true, next: oldest as u64, ..stream },
            StreamPollView::Lagged((oldest - stream.next) as u64),
        )
    } else {
        let k = next_match(history, stream.next as int, stream.job_id);
        if k < history.len() {
            (
                JobProgressStreamView {
                    initial_sent: true,
                    next: (k + 1) as u64,
                    terminated: history[k].status.is_terminal(),
                    ..stream
                },
                StreamPollView::Event(history[k]),
            )
        } else {
            (
                JobProgressStreamView {
                    initial_sent: true,
                    next: if stream.next > history.len() {
                        stream.next
                    } else {
                        history.len() as u64
                    },
                    ..stream
                },
                StreamPollView::Pending,
            )
        }
    }
}

impl JobProgressStream {
    /// A stream that replays `initial` and then follows the hub from its
    /// present end.
    pub fn new(job_id: JobId, initial: ProgressUpdate, hub: &ProgressHub) -> (r: Self)
        ensures
            r@.job_id == job_id,
            r@.next == hub.history().len(),
            !r@.initial_sent,
            r@.initial_update == Some(initial@),
            !r@.terminated,
    {
        JobProgressStream {
            job_id,
            rx: hub.subscribe(),
            initial_sent: false,
            initial_update: Some(initial),
            terminated: false,
        }
    }

    /// Yields the next event of the job, if one is waiting.
    pub fn poll_next(&mut self, hub: &ProgressHub) -> (r: StreamPoll)
        ensures
            (final(self)@, r@) == poll_of(old(self)@, hub.history(), hub.oldest()),
    {
        if self.terminated {
            return StreamPoll::Finished;
        }
        if !self.initial_sent {
            self.initial_sent = true;
            let mut first: Option<ProgressUpdate> = None;
            std::mem::swap(&mut first, &mut self.initial_update);
            match first {
                Some(update) => {
                    if update.status.terminal() {
                        self.terminated = true;
                    }
                    return StreamPoll::Event(update);
                },
                None => {},
            }
        }
        let ghost history = hub.history();
        let ghost oldest = hub.oldest();
        let ghost from = old(self).rx.next;
        let total: u64 = hub.total();
        proof {
            lemma_next_match(history, from as int, self.job_id);
        }
        loop
            invariant
                history == hub.history(),
                oldest == hub.oldest(),
                oldest <= history.len() <= u64::MAX,
                from == old(self).rx.next,
                self.job_id == old(self).job_id,
                self.initial_sent,
                !self.terminated,
                !old(self).terminated,
                self.initial_update.deep_view() == if old(self).initial_sent {
                    old(self).initial_update.deep_view()
                } else {
                    None
                },
                old(self).initial_sent || old(self).initial_update is None,
                self.rx.next == from || (oldest <= from <= self.rx.next <= history.len()),
                forall|j: int|
                    from <= j < self.rx.next ==> (#[trigger] history[j]).job_id != self.job_id,
                next_match(history, from as int, self.job_id) == next_match(
                    history,
                    self.rx.next as int,
                    self.job_id,
                ),
            decreases history.len() - self.rx.next,
        {
            let ghost before = self.rx.next;
            match hub.recv(&mut self.rx) {
                RecvOutcome::Update(update) => {
                    proof {
                        lemma_next_match(history, before as int, self.job_id);
                        lemma_next_match(history, before + 1, self.job_id);
                    }
                    if update.job_id == self.job_id {
                        if update.status.terminal() {
                            self.terminated = true;
                        }
                        return StreamPoll::Event(update);
                    }
                },
                RecvOutcome::Lagged(missed) => {
                    return StreamPoll::Lagged(missed);
                },
                RecvOutcome::Empty => {
                    proof {
                        lemma_next_match(history, before as int, self.job_id);
                    }
                    return StreamPoll::Pending;
                },
            }
        }
    }
}

/// What the stream of a job replays first: the stored state of the job.
pub open spec fn replay_of(
    rec: crate::db::jobs::JobRecordView,
    id: JobId,
    u: ProgressUpdateView,
) -> bool {
    &&& u.job_id == id
    &&& u.status == JobStatus::of_text(rec.status)
    &&& u.progress == rec.progress as u8
    &&& u.message == rec.progress_message
}

/// Opens the progress stream of a job: reads the stored state of the job for
/// the replay, then subscribes to the hub. Fails where the text is no
/// identifier or no such job is stored.
pub fn job_progress_stream(queue: &JobQueueInner, id: &str) -> (r: Result<
    JobProgressStream,
    AppError,
>)
    ensures
        match JobId::parsed(id@) {
            None => r matches Err(e) && e@ == AppErrorView::JobNotFound(id@),
            Some(job_id) => match job_of(queue.db@.jobs, job_id.text()) {
                None => r matches Err(e) && e@ == AppErrorView::JobNotFound(id@),
                Some(rec) => r matches Ok(stream) && stream@.job_id == job_id && stream@.next
                    == queue.hub.history().len() && !stream@.initial_sent && !stream@.terminated
                    && (stream@.initial_update matches Some(u) && replay_of(rec, job_id, u)),
            },
        },
{
    let job_id: JobId = match JobId::parse_str(id) {
        Some(j) => j,
        None => {
            return Err(AppError::JobNotFound(id.to_string()));
        },
    };
    let id_text: String = job_id.to_string();
    match get_job(&queue.db, id_text.as_str()) {
        None => Err(AppError::JobNotFound(id.to_string())),
        Some(rec) => {
            let now = Timestamp::now();
            let job = job_from_record_with(&rec, job_id, &now);
            let initial: ProgressUpdate = job.to_progress_update();
            proof {
                crate::db::jobs::lemma_job_index(queue.db@.jobs, job_id.text());
                assert(job@ == job_view_of(rec@, job_id, now.text()));
            }
            Ok(JobProgressStream::new(job_id, initial, &queue.hub))
        },
    }
}

} // verus!
