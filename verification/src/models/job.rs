//! The job entity, its statuses and the progress events that describe it.

use vstd::prelude::*;
use crate::clock::Timestamp;
use crate::ident::JobId;
use crate::models::request::ConversionType;
use crate::text::{clone_opt, glue, str_eq};

verus! {

/// Where a job stands in its lifecycle.
#[derive(Clone, Copy, Debug, PartialEq, Eq, Structural)]
pub enum JobStatus {
    Pending,
    Processing,
    Completed,
    Failed,
    Cancelled,
}

impl JobStatus {
    /// The lowercase name under which the status is stored and sent.
    pub open spec fn text(self) -> Seq<char> {
        match self {
            JobStatus::Pending => "pending"@,
            JobStatus::Processing => "processing"@,
            JobStatus::Completed => "completed"@,
            JobStatus::Failed => "failed"@,
            JobStatus::Cancelled => "cancelled"@,
        }
    }

    /// The status that a stored name stands for, if it is one of the five.
    pub open spec fn parsed(s: Seq<char>) -> Option<JobStatus> {
        if s == "pending"@ {
            Some(JobStatus::Pending)
        } else if s == "processing"@ {
            Some(JobStatus::Processing)
        } else if s == "completed"@ {
            Some(JobStatus::Completed)
        } else if s == "failed"@ {
            Some(JobStatus::Failed)
        } else if s == "cancelled"@ {
            Some(JobStatus::Cancelled)
        } else {
            None
        }
    }

    /// The status that a stored record is taken to have: an unknown name counts
    /// as `Pending`.
    pub open spec fn of_text(s: Seq<char>) -> JobStatus {
        match Self::parsed(s) {
            Some(st) => st,
            None => JobStatus::Pending,
        }
    }

    /// `Completed`, `Failed` and `Cancelled` end a job's execution attempt.
    pub open spec fn is_terminal(self) -> bool {
        self == JobStatus::Completed || self == JobStatus::Failed || self == JobStatus::Cancelled
    }

    /// `Pending` and `Processing` jobs count against their owner's quota.
    pub open spec fn is_active(self) -> bool {
        self == JobStatus::Pending || self == JobStatus::Processing
    }

    /// The transitions of the lifecycle: `pending → processing → {completed,
    /// failed}`, `failed → pending` by retry, `{pending, processing} →
    /// cancelled`. A processing job may also report progress and stay
    /// `processing`.
    pub open spec fn can_become(self, next: JobStatus) -> bool {
        match (self, next) {
            (JobStatus::Pending, JobStatus::Processing) => true,
            (JobStatus::Processing, JobStatus::Processing) => true,
            (JobStatus::Processing, JobStatus::Completed) => true,
            (JobStatus::Processing, JobStatus::Failed) => true,
            (JobStatus::Failed, JobStatus::Pending) => true,
            (JobStatus::Pending, JobStatus::Cancelled) => true,
            (JobStatus::Processing, JobStatus::Cancelled) => true,
            _ => false,
        }
    }

    /// The five names are distinct, so a name read back gives the status that
    /// wrote it.
    pub proof fn lemma_text_parses(self)
        ensures
            Self::parsed(self.text()) == Some(self),
            Self::of_text(self.text()) == self,
    {
        reveal_strlit("pending");
        reveal_strlit("processing");
        reveal_strlit("completed");
        reveal_strlit("failed");
        reveal_strlit("cancelled");
        assert("pending"@.len() == 7);
        assert("processing"@.len() == 10);
        assert("completed"@.len() == 9);
        assert("failed"@.len() == 6);
        assert("cancelled"@.len() == 9);
        assert("completed"@[1] == 'o' && "cancelled"@[1] == 'a');
    }

    /// The name of the status.
    pub fn as_str(&self) -> (r: &'static str)
        ensures
            r@ == self.text(),
    {
        match self {
            JobStatus::Pending => "pending",
            JobStatus::Processing => "processing",
            JobStatus::Completed => "completed",
            JobStatus::Failed => "failed",
            JobStatus::Cancelled => "cancelled",
        }
    }

    /// The name of the status, as an owned string.
    pub fn to_string(&self) -> (r: String)
        ensures
            r@ == self.text(),
    {
        self.as_str().to_string()
    }

    /// Reads a stored name.
    pub fn parse(s: &str) -> (r: Option<JobStatus>)
        ensures
            r == Self::parsed(s@),
    {
        if str_eq(s, "pending") {
            Some(JobStatus::Pending)
        } else if str_eq(s, "processing") {
            Some(JobStatus::Processing)
        } else if str_eq(s, "completed") {
            Some(JobStatus::Completed)
        } else if str_eq(s, "failed") {
            Some(JobStatus::Failed)
        } else if str_eq(s, "cancelled") {
            Some(JobStatus::Cancelled)
        } else {
            None
        }
    }

    /// Whether the status ends an execution attempt.
    pub fn terminal(&self) -> (r: bool)
        ensures
            r == self.is_terminal(),
    {
        match self {
            JobStatus::Completed | JobStatus::Failed | JobStatus::Cancelled => true,
            _ => false,
        }
    }
}

/// What a `ProgressUpdate` says, with texts as sequences of characters.
pub struct ProgressUpdateView {
    pub job_id: JobId,
    pub status: JobStatus,
    pub progress: u8,
    pub message: Option<Seq<char>>,
    pub timestamp: Seq<char>,
}

/// One progress event of a job. It is broadcast to subscribers and never
/// stored.
pub struct ProgressUpdate {
    pub job_id: JobId,
    pub status: JobStatus,
    pub progress: u8,
    pub message: Option<String>,
    pub timestamp: Timestamp,
}

impl View for ProgressUpdate {
    type V = ProgressUpdateView;

    open spec fn view(&self) -> ProgressUpdateView {
        ProgressUpdateView {
            job_id: self.job_id,
            status: self.status,
            progress: self.progress,
            message: self.message.deep_view(),
            timestamp: self.timestamp.text(),
        }
    }
}

impl DeepView for ProgressUpdate {
    type V = ProgressUpdateView;

    open spec fn deep_view(&self) -> ProgressUpdateView {
        self@
    }
}

impl ProgressUpdate {
    /// An event stamped with the current time.
    pub fn new(job_id: JobId, status: JobStatus, progress: u8, message: Option<String>) -> (r:
        Self)
        ensures
            r@.job_id == job_id,
            r@.status == status,
            r@.progress == progress,
            r@.message == message.deep_view(),
    {
        ProgressUpdate { job_id, status, progress, message, timestamp: Timestamp::now() }
    }

    /// An event stamped with the given time.
    pub fn at(
        job_id: JobId,
        status: JobStatus,
        progress: u8,
        message: Option<String>,
        now: &Timestamp,
    ) -> (r: Self)
        ensures
            r@ == (ProgressUpdateView {
                job_id,
                status,
                progress,
                message: message.deep_view(),
                timestamp: now.text(),
            }),
    {
        ProgressUpdate { job_id, status, progress, message, timestamp: now.copy() }
    }

    /// A copy of the event.
    pub fn copy(&self) -> (r: Self)
        ensures
            r@ == self@,
    {
        ProgressUpdate {
            job_id: self.job_id,
            status: self.status,
            progress: self.progress,
            message: clone_opt(&self.message),
            timestamp: self.timestamp.copy(),
        }
    }
}

/// What a `Job` holds, with texts as sequences of characters and instants by
/// their RFC 3339 text.
pub struct JobView {
    pub id: JobId,
    pub status: JobStatus,
    pub conversion_type: ConversionType,
    pub input_path: Seq<char>,
    pub input_format: Seq<char>,
    pub output_format: Seq<char>,
    pub quality: Option<u8>,
    pub created_at: Seq<char>,
    pub completed_at: Option<Seq<char>>,
    pub result_path: Option<Seq<char>>,
    pub error: Option<Seq<char>>,
    pub progress: u8,
    pub progress_message: Option<Seq<char>>,
}

/// One conversion request and the state of its execution.
pub struct Job {
    pub id: JobId,
    pub status: JobStatus,
    pub conversion_type: ConversionType,
    pub input_path: String,
    pub input_format: String,
    pub output_format: String,
    pub quality: Option<u8>,
    pub created_at: Timestamp,
    pub completed_at: Option<Timestamp>,
    pub result_path: Option<String>,
    pub error: Option<String>,
    pub progress: u8,
    pub progress_message: Option<String>,
}

/// The message of a job that has just started.
pub open spec fn starting_message() -> Seq<char> {
    "Avvio conversione..."@
}

/// The message of a job that has completed.
pub open spec fn completed_message() -> Seq<char> {
    "Conversione completata!"@
}

/// The message of a job that failed with the given error.
pub open spec fn failure_message(error: Seq<char>) -> Seq<char> {
    "Errore: "@ + error
}

impl View for Job {
    type V = JobView;

    open spec fn view(&self) -> JobView {
        JobView {
            id: self.id,
            status: self.status,
            conversion_type: self.conversion_type,
            input_path: self.input_path@,
            input_format: self.input_format@,
            output_format: self.output_format@,
            quality: self.quality,
            created_at: self.created_at.text(),
            completed_at: match self.completed_at {
                Some(t) => Some(t.text()),
                None => None,
            },
            result_path: self.result_path.deep_view(),
            error: self.error.deep_view(),
            progress: self.progress,
            progress_message: self.progress_message.deep_view(),
        }
    }
}

impl JobView {
    /// A job as it is when accepted: pending, no progress, nothing produced.
    pub open spec fn fresh(
        id: JobId,
        conversion_type: ConversionType,
        input_path: Seq<char>,
        input_format: Seq<char>,
        output_format: Seq<char>,
        quality: Option<u8>,
        created_at: Seq<char>,
    ) -> JobView {
        JobView {
            id,
            status: JobStatus::Pending,
            conversion_type,
            input_path,
            input_format,
            output_format,
            quality,
            created_at,
            completed_at: None,
            result_path: None,
            error: None,
            progress: 0,
            progress_message: None,
        }
    }

    /// The job after it entered `processing`.
    pub open spec fn started(self) -> JobView {
        JobView {
            status: JobStatus::Processing,
            progress: 0,
            progress_message: Some(starting_message()),
            ..self
        }
    }

    /// The job after a progress report, capped at 100.
    pub open spec fn advanced(self, progress: u8, message: Option<Seq<char>>) -> JobView {
        JobView {
            progress: if progress > 100 {
                100
            } else {
                progress
            },
            progress_message: message,
            ..self
        }
    }

    /// The job after it completed at `now` with the given result.
    pub open spec fn finished(self, result_path: Seq<char>, now: Seq<char>) -> JobView {
        JobView {
            status: JobStatus::Completed,
            completed_at: Some(now),
            result_path: Some(result_path),
            progress: 100,
            progress_message: Some(completed_message()),
            ..self
        }
    }

    /// The job after it failed at `now` with the given error. Its progress
    /// stays where it was.
    pub open spec fn broken(self, error: Seq<char>, now: Seq<char>) -> JobView {
        JobView {
            status: JobStatus::Failed,
            completed_at: Some(now),
            error: Some(error),
            progress_message: Some(failure_message(error)),
            ..self
        }
    }
}

impl Job {
    /// A pending job with a fresh random identifier, created now.
    pub fn new(
        conversion_type: ConversionType,
        input_path: String,
        input_format: String,
        output_format: String,
        quality: Option<u8>,
    ) -> (r: Self)
        ensures
            r@ == JobView::fresh(
                r.id,
                conversion_type,
                input_path@,
                input_format@,
                output_format@,
                quality,
                r.created_at.text(),
            ),
    {
        Job::with_id(
            JobId::new_random(),
            conversion_type,
            input_path,
            input_format,
            output_format,
            quality,
            Timestamp::now(),
        )
    }

    /// A pending job with the given identifier and creation time.
    pub fn with_id(
        id: JobId,
        conversion_type: ConversionType,
        input_path: String,
        input_format: String,
        output_format: String,
        quality: Option<u8>,
        created_at: Timestamp,
    ) -> (r: Self)
        ensures
            r@ == JobView::fresh(
                id,
                conversion_type,
                input_path@,
                input_format@,
                output_format@,
                quality,
                created_at.text(),
            ),
    {
        Job {
            id,
            status: JobStatus::Pending,
            conversion_type,
            input_path,
            input_format,
            output_format,
            quality,
            created_at,
            completed_at: None,
            result_path: None,
            error: None,
            progress: 0,
            progress_message: None,
        }
    }

    /// Enters `processing`. Only a pending job can start.
    pub fn mark_processing(&mut self)
        requires
            old(self).status == JobStatus::Pending,
        ensures
            final(self)@ == old(self)@.started(),
    {
        self.status = JobStatus::Processing;
        self.progress = 0;
        self.progress_message = Some("Avvio conversione...".to_string());
    }

    /// Records a progress report. Only a processing job reports progress, and
    /// progress never goes back.
    pub fn update_progress(&mut self, progress: u8, message: Option<String>)
        requires
            old(self).status == JobStatus::Processing,
            progress >= old(self).progress,
        ensures
            final(self)@ == old(self)@.advanced(progress, message.deep_view()),
            final(self).progress >= old(self).progress || old(self).progress > 100,
    {
        self.progress = if progress > 100 {
            100
        } else {
            progress
        };
        self.progress_message = message;
    }

    /// Completes at the current time. Only a processing job can complete.
    pub fn mark_completed(&mut self, result_path: String)
        requires
            old(self).status == JobStatus::Processing,
        ensures
            final(self).completed_at is Some,
            final(self)@ == old(self)@.finished(result_path@, final(self).completed_at->0.text()),
    {
        self.mark_completed_at(result_path, Timestamp::now());
    }

    /// Completes at the given time. Only a processing job can complete.
    pub fn mark_completed_at(&mut self, result_path: String, now: Timestamp)
        requires
            old(self).status == JobStatus::Processing,
        ensures
            final(self)@ == old(self)@.finished(result_path@, now.text()),
            final(self).completed_at is Some,
            final(self).completed_at->0.text() == now.text(),
    {
        self.status = JobStatus::Completed;
        self.completed_at = Some(now);
        self.result_path = Some(result_path);
        self.progress = 100;
        self.progress_message = Some("Conversione completata!".to_string());
    }

    /// Fails at the current time. Only a processing job can fail.
    pub fn mark_failed(&mut self, error: String)
        requires
            old(self).status == JobStatus::Processing,
        ensures
            final(self).completed_at is Some,
            final(self)@ == old(self)@.broken(error@, final(self).completed_at->0.text()),
    {
        self.mark_failed_at(error, Timestamp::now());
    }

    /// Fails at the given time. Only a processing job can fail.
    pub fn mark_failed_at(&mut self, error: String, now: Timestamp)
        requires
            old(self).status == JobStatus::Processing,
        ensures
            final(self)@ == old(self)@.broken(error@, now.text()),
            final(self).completed_at is Some,
            final(self).completed_at->0.text() == now.text(),
    {
        self.status = JobStatus::Failed;
        self.completed_at = Some(now);
        self.progress_message = Some(glue("Errore: ", error.as_str()));
        self.error = Some(error);
    }

    /// The event that describes the job as it is, stamped with the current
    /// time.
    pub fn to_progress_update(&self) -> (r: ProgressUpdate)
        ensures
            r@.job_id == self.id,
            r@.status == self.status,
            r@.progress == self.progress,
            r@.message == self@.progress_message,
    {
        ProgressUpdate::new(self.id, self.status, self.progress, clone_opt(&self.progress_message))
    }
}

} // verus!
