//! The stored record of a job, the table of all records, and what the
//! lifecycle allows of a record.

use vstd::prelude::*;
use crate::models::job::JobStatus;
use crate::text::{clone_opt, str_eq};

verus! {

/// What a `JobRecord` holds, with texts as sequences of characters.
pub struct JobRecordView {
    pub id: Seq<char>,
    pub api_key_id: Option<Seq<char>>,
    pub conversion_type: Seq<char>,
    pub input_format: Seq<char>,
    pub output_format: Seq<char>,
    pub quality: Option<i64>,
    pub status: Seq<char>,
    pub progress: i64,
    pub progress_message: Option<Seq<char>>,
    pub input_path: Seq<char>,
    pub result_path: Option<Seq<char>>,
    pub error: Option<Seq<char>>,
    pub file_size_bytes: Option<i64>,
    pub created_at: Seq<char>,
    pub started_at: Option<Seq<char>>,
    pub completed_at: Option<Seq<char>>,
    pub updated_at: Seq<char>,
    pub priority: Option<Seq<char>>,
    pub webhook_url: Option<Seq<char>>,
    pub source_url: Option<Seq<char>>,
    pub expires_at: Option<Seq<char>>,
    pub retry_count: Option<i64>,
    pub original_filename: Option<Seq<char>>,
    pub drive_file_id: Option<Seq<char>>,
}

/// The stored record of a job.
#[derive(Clone, Debug)]
pub struct JobRecord {
    pub id: String,
    pub api_key_id: Option<String>,
    pub conversion_type: String,
    pub input_format: String,
    pub output_format: String,
    pub quality: Option<i64>,
    pub status: String,
    pub progress: i64,
    pub progress_message: Option<String>,
    pub input_path: String,
    pub result_path: Option<String>,
    pub error: Option<String>,
    pub file_size_bytes: Option<i64>,
    pub created_at: String,
    pub started_at: Option<String>,
    pub completed_at: Option<String>,
    pub updated_at: String,
    pub priority: Option<String>,
    pub webhook_url: Option<String>,
    pub source_url: Option<String>,
    pub expires_at: Option<String>,
    pub retry_count: Option<i64>,
    pub original_filename: Option<String>,
    pub drive_file_id: Option<String>,
}

impl View for JobRecord {
    type V = JobRecordView;

    open spec fn view(&self) -> JobRecordView {
        JobRecordView {
            id: self.id@,
            api_key_id: self.api_key_id.deep_view(),
            conversion_type: self.conversion_type@,
            input_format: self.input_format@,
            output_format: self.output_format@,
            quality: self.quality,
            status: self.status@,
            progress: self.progress,
            progress_message: self.progress_message.deep_view(),
            input_path: self.input_path@,
            result_path: self.result_path.deep_view(),
            error: self.error.deep_view(),
            file_size_bytes: self.file_size_bytes,
            created_at: self.created_at@,
            started_at: self.started_at.deep_view(),
            completed_at: self.completed_at.deep_view(),
            updated_at: self.updated_at@,
            priority: self.priority.deep_view(),
            webhook_url: self.webhook_url.deep_view(),
            source_url: self.source_url.deep_view(),
            expires_at: self.expires_at.deep_view(),
            retry_count: self.retry_count,
            original_filename: self.original_filename.deep_view(),
            drive_file_id: self.drive_file_id.deep_view(),
        }
    }
}

impl DeepView for JobRecord {
    type V = JobRecordView;

    open spec fn deep_view(&self) -> JobRecordView {
        self@
    }
}

/// The message of a job that waits for its retry.
pub open spec fn retry_message() -> Seq<char> {
    "In coda per retry..."@
}

/// The message of a job that its user cancelled.
pub open spec fn cancel_message() -> Seq<char> {
    "Job cancellato dall'utente"@
}

/// The message of a job that ran out of time.
pub open spec fn timeout_message() -> Seq<char> {
    "Job timeout"@
}

/// The error of a job that ran out of time.
pub open spec fn timeout_error() -> Seq<char> {
    "Il job ha superato il tempo massimo di esecuzione"@
}

impl JobRecordView {
    /// The status of the record; an unknown name counts as `Pending`.
    pub open spec fn job_status(self) -> JobStatus {
        JobStatus::of_text(self.status)
    }

    /// Whether the record is stored as `pending` or `processing`.
    pub open spec fn is_active(self) -> bool {
        self.status == JobStatus::Pending.text() || self.status == JobStatus::Processing.text()
    }

    /// Whether the record is stored as `completed`, `failed` or `cancelled`.
    pub open spec fn is_finished(self) -> bool {
        self.status == JobStatus::Completed.text() || self.status == JobStatus::Failed.text()
            || self.status == JobStatus::Cancelled.text()
    }

    /// Whether the record is one that the lifecycle can produce: its status is
    /// one of the five names, its progress a percentage, a pending job has no
    /// progress, exactly a completed job has a result, exactly a failed job has
    /// an error, and the retries are counted from zero.
    pub open spec fn is_valid(self) -> bool {
        &&& JobStatus::parsed(self.status) matches Some(status)
        &&& 0 <= self.progress <= 100
        &&& status == JobStatus::Pending ==> self.progress == 0
        &&& self.result_path is Some <==> status == JobStatus::Completed
        &&& self.error is Some <==> status == JobStatus::Failed
        &&& 0 <= self.retries()
    }

    /// Whether a status update is a step of the lifecycle from this record:
    /// the stored status is one of the five names, the new one is `processing`,
    /// `completed` or `failed` and can follow it, the progress is a percentage,
    /// a processing job does not go back, a result comes with completion and
    /// only with it, and an error with failure and only with it.
    pub open spec fn accepts_update(
        self,
        status: Seq<char>,
        progress: i64,
        error: Option<Seq<char>>,
        result_path: Option<Seq<char>>,
    ) -> bool {
        &&& JobStatus::parsed(self.status) matches Some(from)
        &&& JobStatus::parsed(status) matches Some(to)
        &&& from.can_become(to)
        &&& to != JobStatus::Pending && to != JobStatus::Cancelled
        &&& 0 <= progress <= 100
        &&& from == JobStatus::Processing ==> progress >= self.progress
        &&& result_path is Some <==> to == JobStatus::Completed
        &&& error is Some <==> to == JobStatus::Failed
    }

    /// The record after a status update at `now`. An absent error or result
    /// path keeps the stored one. The start time is set on entering
    /// `processing`, the completion time on entering `completed` or `failed`.
    pub open spec fn updated(
        self,
        status: Seq<char>,
        progress: i64,
        message: Option<Seq<char>>,
        error: Option<Seq<char>>,
        result_path: Option<Seq<char>>,
        now: Seq<char>,
    ) -> JobRecordView {
        JobRecordView {
            status,
            progress,
            progress_message: message,
            updated_at: now,
            error: if error is Some {
                error
            } else {
                self.error
            },
            result_path: if result_path is Some {
                result_path
            } else {
                self.result_path
            },
            started_at: if status == JobStatus::Processing.text() && self.status
                != JobStatus::Processing.text() {
                Some(now)
            } else {
                self.started_at
            },
            completed_at: if status == JobStatus::Completed.text() || status
                == JobStatus::Failed.text() {
                Some(now)
            } else {
                self.completed_at
            },
            ..self
        }
    }

    /// Whether the record can be reset for a retry: it is stored as `failed`
    /// and its retry counter can still grow.
    pub open spec fn accepts_retry(self) -> bool {
        &&& self.status == JobStatus::Failed.text()
        &&& self.retry_count matches Some(n) ==> n < i64::MAX
    }

    /// The retry counter, an absent one counting as zero.
    pub open spec fn retries(self) -> int {
        match self.retry_count {
            Some(n) => n as int,
            None => 0,
        }
    }

    /// The record after it was reset for a retry at `now`: pending again, with
    /// no progress, error, start or completion, and one more retry counted.
    pub open spec fn reset_for_retry(self, now: Seq<char>) -> JobRecordView {
        JobRecordView {
            status: JobStatus::Pending.text(),
            progress: 0,
            progress_message: Some(retry_message()),
            error: None,
            started_at: None,
            completed_at: None,
            retry_count: Some((self.retries() + 1) as i64),
            updated_at: now,
            ..self
        }
    }

    /// The record after its user cancelled it at `now`.
    pub open spec fn cancelled(self, now: Seq<char>) -> JobRecordView {
        JobRecordView {
            status: JobStatus::Cancelled.text(),
            progress_message: Some(cancel_message()),
            completed_at: Some(now),
            updated_at: now,
            ..self
        }
    }
}

impl JobRecord {
    /// A copy of the record.
    pub fn copy(&self) -> (r: JobRecord)
        ensures
            r@ == self@,
    {
        JobRecord {
            id: self.id.clone(),
            api_key_id: clone_opt(&self.api_key_id),
            conversion_type: self.conversion_type.clone(),
            input_format: self.input_format.clone(),
            output_format: self.output_format.clone(),
            quality: self.quality,
            status: self.status.clone(),
            progress: self.progress,
            progress_message: clone_opt(&self.progress_message),
            input_path: self.input_path.clone(),
            result_path: clone_opt(&self.result_path),
            error: clone_opt(&self.error),
            file_size_bytes: self.file_size_bytes,
            created_at: self.created_at.clone(),
            started_at: clone_opt(&self.started_at),
            completed_at: clone_opt(&self.completed_at),
            updated_at: self.updated_at.clone(),
            priority: clone_opt(&self.priority),
            webhook_url: clone_opt(&self.webhook_url),
            source_url: clone_opt(&self.source_url),
            expires_at: clone_opt(&self.expires_at),
            retry_count: self.retry_count,
            original_filename: clone_opt(&self.original_filename),
            drive_file_id: clone_opt(&self.drive_file_id),
        }
    }

    /// Whether the record is stored as `pending` or `processing`.
    pub fn is_active(&self) -> (r: bool)
        ensures
            r == self@.is_active(),
    {
        str_eq(self.status.as_str(), "pending") || str_eq(self.status.as_str(), "processing")
    }

    /// Whether the record is stored as `completed`, `failed` or `cancelled`.
    pub fn is_finished(&self) -> (r: bool)
        ensures
            r == self@.is_finished(),
    {
        str_eq(self.status.as_str(), "completed") || str_eq(self.status.as_str(), "failed")
            || str_eq(self.status.as_str(), "cancelled")
    }

    /// Whether the record is one that the lifecycle can produce.
    pub fn is_valid(&self) -> (r: bool)
        ensures
            r == self@.is_valid(),
    {
        let status: JobStatus = match JobStatus::parse(self.status.as_str()) {
            Some(s) => s,
            None => {
                return false;
            },
        };
        let retries: i64 = match self.retry_count {
            Some(n) => n,
            None => 0,
        };
        0 <= self.progress && self.progress <= 100 && (status != JobStatus::Pending
            || self.progress == 0) && (self.result_path.is_some() == (status
            == JobStatus::Completed)) && (self.error.is_some() == (status == JobStatus::Failed))
            && 0 <= retries
    }

    /// Whether a status update is a step of the lifecycle from this record.
    pub fn accepts_update(
        &self,
        status: &str,
        progress: i64,
        error: Option<&str>,
        result_path: Option<&str>,
    ) -> (r: bool)
        ensures
            r == self@.accepts_update(status@, progress, error.deep_view(), result_path.deep_view()),
    {
        match (JobStatus::parse(self.status.as_str()), JobStatus::parse(status)) {
            (Some(from), Some(to)) => {
                let step: bool = match (from, to) {
                    (JobStatus::Pending, JobStatus::Processing) => true,
                    (JobStatus::Processing, JobStatus::Processing) => true,
                    (JobStatus::Processing, JobStatus::Completed) => true,
                    (JobStatus::Processing, JobStatus::Failed) => true,
                    _ => false,
                };
                step && 0 <= progress && progress <= 100 && (from != JobStatus::Processing
                    || progress >= self.progress) && result_path.is_some() == (to
                    == JobStatus::Completed) && error.is_some() == (to == JobStatus::Failed)
            },
            _ => false,
        }
    }
}

/// Why the table refused an operation.
#[derive(Clone, Copy, Debug, PartialEq, Eq, Structural)]
pub enum StoreError {
    /// A record with the same identifier is already stored.
    DuplicateId,
    /// The row that the operation needs is not stored.
    RowNotFound,
    /// The operation needs an instant that the calendar does not hold.
    TimeOutOfRange,
}

/// The concurrency limit of an API key. An absent limit stands for the default.
pub struct ApiKeyLimit {
    pub id: String,
    pub max_concurrent_jobs: Option<i64>,
}

/// What an `ApiKeyLimit` holds.
pub struct ApiKeyLimitView {
    pub id: Seq<char>,
    pub max_concurrent_jobs: Option<i64>,
}

impl View for ApiKeyLimit {
    type V = ApiKeyLimitView;

    open spec fn view(&self) -> ApiKeyLimitView {
        ApiKeyLimitView { id: self.id@, max_concurrent_jobs: self.max_concurrent_jobs }
    }
}

impl DeepView for ApiKeyLimit {
    type V = ApiKeyLimitView;

    open spec fn deep_view(&self) -> ApiKeyLimitView {
        self@
    }
}

/// How many jobs an owner may have active when the key sets no limit.
pub const DEFAULT_JOB_LIMIT: i64 = 5;

/// The stored jobs, in the order in which they were created, and the limits of
/// the API keys. A table that is filled and changed by the operations of this
/// module alone holds no identifier twice: see `distinct_ids`, which every
/// one of them keeps.
pub struct JobStore {
    pub jobs: Vec<JobRecord>,
    pub api_keys: Vec<ApiKeyLimit>,
}

/// What a `JobStore` holds.
pub struct JobStoreView {
    pub jobs: Seq<JobRecordView>,
    pub api_keys: Seq<ApiKeyLimitView>,
}

impl View for JobStore {
    type V = JobStoreView;

    open spec fn view(&self) -> JobStoreView {
        JobStoreView { jobs: self.jobs.deep_view(), api_keys: self.api_keys.deep_view() }
    }
}

/// Index of the first record with the given identifier, or the number of
/// records when there is none.
pub open spec fn job_index(jobs: Seq<JobRecordView>, id: Seq<char>) -> int
    decreases jobs.len(),
{
    if jobs.len() == 0 {
        0
    } else if jobs[0].id == id {
        0
    } else {
        1 + job_index(jobs.drop_first(), id)
    }
}

/// Whether a record with the given identifier is stored.
pub open spec fn has_job(jobs: Seq<JobRecordView>, id: Seq<char>) -> bool {
    job_index(jobs, id) < jobs.len()
}

/// The first record with the given identifier.
pub open spec fn job_of(jobs: Seq<JobRecordView>, id: Seq<char>) -> Option<JobRecordView> {
    if has_job(jobs, id) {
        Some(jobs[job_index(jobs, id)])
    } else {
        None
    }
}

/// `job_index` is the least position whose record has the identifier.
pub proof fn lemma_job_index(jobs: Seq<JobRecordView>, id: Seq<char>)
    ensures
        0 <= job_index(jobs, id) <= jobs.len(),
        forall|j: int| 0 <= j < job_index(jobs, id) ==> (#[trigger] jobs[j]).id != id,
        job_index(jobs, id) < jobs.len() ==> jobs[job_index(jobs, id)].id == id,
    decreases jobs.len(),
{
    if jobs.len() > 0 && jobs[0].id != id {
        let t = jobs.drop_first();
        lemma_job_index(t, id);
        assert forall|j: int| 0 <= j < job_index(jobs, id) implies (#[trigger] jobs[j]).id
            != id by {
            if j > 0 {
                assert(jobs[j] == t[j - 1]);
            }
        }
    }
}

/// A position whose record has the identifier, with no such record before it,
/// is `job_index`.
pub proof fn lemma_job_index_is(jobs: Seq<JobRecordView>, id: Seq<char>, i: int)
    requires
        0 <= i <= jobs.len(),
        forall|j: int| 0 <= j < i ==> (#[trigger] jobs[j]).id != id,
        i < jobs.len() ==> jobs[i].id == id,
    ensures
        job_index(jobs, id) == i,
{
    lemma_job_index(jobs, id);
    let k = job_index(jobs, id);
    if k < i {
        assert(jobs[k].id == id);
    }
    if i < k {
        assert(jobs[i].id == id);
    }
}

/// Replacing a record by one with the same identifier moves no identifier.
pub proof fn lemma_update_keeps_index(
    jobs: Seq<JobRecordView>,
    i: int,
    rec: JobRecordView,
    id: Seq<char>,
)
    requires
        0 <= i < jobs.len(),
        rec.id == jobs[i].id,
    ensures
        job_index(jobs.update(i, rec), id) == job_index(jobs, id),
{
    lemma_job_index(jobs, id);
    let k = job_index(jobs, id);
    let after = jobs.update(i, rec);
    assert forall|j: int| 0 <= j < k implies (#[trigger] after[j]).id != id by {
        assert(jobs[j].id != id);
    }
    lemma_job_index_is(after, id, k);
}

/// How many of the records are stored as `pending` or `processing`.
pub open spec fn active_count(jobs: Seq<JobRecordView>) -> int
    decreases jobs.len(),
{
    if jobs.len() == 0 {
        0
    } else {
        active_count(jobs.drop_last()) + if jobs.last().is_active() {
            1int
        } else {
            0int
        }
    }
}

/// How many of the records belong to the owner and are stored as `pending` or
/// `processing`.
pub open spec fn owner_active_count(jobs: Seq<JobRecordView>, owner: Seq<char>) -> int
    decreases jobs.len(),
{
    if jobs.len() == 0 {
        0
    } else {
        owner_active_count(jobs.drop_last(), owner) + if jobs.last().api_key_id == Some(owner)
            && jobs.last().is_active() {
            1int
        } else {
            0int
        }
    }
}

/// Index of the first key with the given identifier, or the number of keys.
pub open spec fn key_index(keys: Seq<ApiKeyLimitView>, id: Seq<char>) -> int
    decreases keys.len(),
{
    if keys.len() == 0 {
        0
    } else if keys[0].id == id {
        0
    } else {
        1 + key_index(keys.drop_first(), id)
    }
}

/// `key_index` is the least position whose key has the identifier.
pub proof fn lemma_key_index(keys: Seq<ApiKeyLimitView>, id: Seq<char>)
    ensures
        0 <= key_index(keys, id) <= keys.len(),
        forall|j: int| 0 <= j < key_index(keys, id) ==> (#[trigger] keys[j]).id != id,
        key_index(keys, id) < keys.len() ==> keys[key_index(keys, id)].id == id,
    decreases keys.len(),
{
    if keys.len() > 0 && keys[0].id != id {
        let t = keys.drop_first();
        lemma_key_index(t, id);
        assert forall|j: int| 0 <= j < key_index(keys, id) implies (#[trigger] keys[j]).id
            != id by {
            if j > 0 {
                assert(keys[j] == t[j - 1]);
            }
        }
    }
}

/// The limit of an owner: the stored one, the default where the key sets none,
/// and nothing where the key is not stored.
pub open spec fn job_limit_of(keys: Seq<ApiKeyLimitView>, id: Seq<char>) -> Option<i64> {
    let k = key_index(keys, id);
    if k < keys.len() {
        match keys[k].max_concurrent_jobs {
            Some(n) => Some(n),
            None => Some(DEFAULT_JOB_LIMIT),
        }
    } else {
        None
    }
}

impl JobStore {
    /// An empty table.
    pub fn new() -> (r: JobStore)
        ensures
            r@.jobs.len() == 0,
            r@.api_keys.len() == 0,
    {
        JobStore { jobs: Vec::new(), api_keys: Vec::new() }
    }

    /// Index of the first record with the identifier, or the number of records.
    pub fn position(&self, id: &str) -> (r: usize)
        ensures
            r == job_index(self@.jobs, id@),
            r <= self.jobs.len(),
            r < self.jobs.len() ==> self.jobs[r as int]@.id == id@,
    {
        let mut i: usize = 0;
        while i < self.jobs.len() && !str_eq(self.jobs[i].id.as_str(), id)
            invariant
                i <= self.jobs.len(),
                forall|j: int| 0 <= j < i ==> (#[trigger] self@.jobs[j]).id != id@,
            decreases self.jobs.len() - i,
        {
            i += 1;
        }
        proof {
            lemma_job_index_is(self@.jobs, id@, i as int);
        }
        i
    }

    /// Stores the limit of an API key, in place of any limit stored for it.
    pub fn set_job_limit(&mut self, api_key_id: &str, max_concurrent_jobs: Option<i64>)
        ensures
            final(self)@.jobs == old(self)@.jobs,
            job_limit_of(final(self)@.api_keys, api_key_id@) == Some(
                match max_concurrent_jobs {
                    Some(n) => n,
                    None => DEFAULT_JOB_LIMIT,
                },
            ),
            forall|other: Seq<char>|
                other != api_key_id@ ==> job_limit_of(final(self)@.api_keys, other)
                    == job_limit_of(old(self)@.api_keys, other),
    {
        let mut i: usize = 0;
        while i < self.api_keys.len() && !str_eq(self.api_keys[i].id.as_str(), api_key_id)
            invariant
                i <= self.api_keys.len(),
                forall|j: int| 0 <= j < i ==> (#[trigger] self@.api_keys[j]).id != api_key_id@,
            decreases self.api_keys.len() - i,
        {
            i += 1;
        }
        let entry = ApiKeyLimit { id: api_key_id.to_string(), max_concurrent_jobs };
        let ghost before = self@.api_keys;
        if i < self.api_keys.len() {
            self.api_keys.set(i, entry);
        } else {
            self.api_keys.push(entry);
        }
        proof {
            let after = self@.api_keys;
            lemma_key_index(before, api_key_id@);
            lemma_key_index(after, api_key_id@);
            assert(after[i as int].id == api_key_id@);
            assert forall|j: int| 0 <= j < i implies (#[trigger] after[j]).id != api_key_id@ by {
                assert(after[j] == before[j]);
            }
            let k = key_index(after, api_key_id@);
            if k < i {
                assert(after[k].id == api_key_id@);
            }
            assert(k == i);
            assert forall|other: Seq<char>| other != api_key_id@ implies job_limit_of(
                after,
                other,
            ) == job_limit_of(before, other) by {
                lemma_key_index(before, other);
                lemma_key_index(after, other);
                let a = key_index(before, other);
                let b = key_index(after, other);
                if a < before.len() {
                    assert(before[a].id == other);
                    assert(a != i);
                    assert(after[a] == before[a]);
                    if b < a {
                        assert(after[b].id == other);
                        assert(b != i);
                        assert(after[b] == before[b]);
                    }
                    assert(b == a);
                } else {
                    if b < after.len() {
                        assert(after[b].id == other);
                        assert(b != i);
                        assert(after[b] == before[b]);
                    }
                }
            }
        }
    }
}

} // verus!
