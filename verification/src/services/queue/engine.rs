//! The job engine: admission, the job table and the progress hub, held
//! together in one value, and the steps that move a job through its lifecycle.

use vstd::prelude::*;
use crate::clock::Timestamp;
use crate::db::jobs::{
    after_status_update, count_user_active_jobs, create_job, delete_job, get_job,
    get_user_job_limit, has_job, job_index, job_limit_of, job_of, lemma_job_index,
    owner_active_count, status_update_applies, update_job_status, JobRecord, JobRecordView,
    JobStore, JobStoreView, StoreError,
};
use crate::error::{store_error_message, store_error_text, AppError, AppErrorView};
use crate::ident::{is_random_uuid, uuid_text, JobId};
use crate::models::job::{
    completed_message, failure_message, starting_message, Job, JobStatus, JobView, ProgressUpdate,
    ProgressUpdateView,
};
use crate::models::request::ConversionType;
use crate::paths::{join, joined};
use crate::services::progress::{PROGRESS_CHANNEL_CAPACITY, ProgressHub, ProgressReceiver};
use crate::text::{clone_opt, decimal, glue, i64_to_string, str_eq, u64_to_string};
use crate::services::queue::semaphore::{MAX_CONCURRENT_JOBS, Semaphore};

verus! {

/// What a client submits with a job.
pub struct JobRequest {
    pub conversion_type: ConversionType,
    pub file_size: i64,
    pub input_format: String,
    pub output_format: String,
    pub quality: Option<u8>,
    pub api_key_id: Option<String>,
    pub priority: Option<String>,
    pub webhook_url: Option<String>,
    pub source_url: Option<String>,
    pub expires_in_hours: Option<i64>,
    pub original_filename: Option<String>,
}

/// What a `JobRequest` holds, with texts as sequences of characters.
pub struct JobRequestView {
    pub conversion_type: ConversionType,
    pub file_size: i64,
    pub input_format: Seq<char>,
    pub output_format: Seq<char>,
    pub quality: Option<u8>,
    pub api_key_id: Option<Seq<char>>,
    pub priority: Option<Seq<char>>,
    pub webhook_url: Option<Seq<char>>,
    pub source_url: Option<Seq<char>>,
    pub expires_in_hours: Option<i64>,
    pub original_filename: Option<Seq<char>>,
}

impl View for JobRequest {
    type V = JobRequestView;

    open spec fn view(&self) -> JobRequestView {
        JobRequestView {
            conversion_type: self.conversion_type,
            file_size: self.file_size,
            input_format: self.input_format@,
            output_format: self.output_format@,
            quality: self.quality,
            api_key_id: self.api_key_id.deep_view(),
            priority: self.priority.deep_view(),
            webhook_url: self.webhook_url.deep_view(),
            source_url: self.source_url.deep_view(),
            expires_in_hours: self.expires_in_hours,
            original_filename: self.original_filename.deep_view(),
        }
    }
}

/// The history of a hub after one more event was sent to it.
pub open spec fn after_publish(
    history: Seq<ProgressUpdateView>,
    update: ProgressUpdateView,
) -> Seq<ProgressUpdateView> {
    if history.len() < u64::MAX {
        history.push(update)
    } else {
        history
    }
}

/// The text with which admission refuses an owner at their limit.
pub open spec fn limit_reached_text(active: int, limit: int) -> Seq<char> {
    "Limite job raggiunto: "@ + decimal(active) + "/"@ + decimal(limit)
}

/// The text with which a job is refused whose result would expire at an
/// instant that the calendar does not hold.
pub open spec fn invalid_expiry_text() -> Seq<char> {
    "Scadenza del risultato non valida"@
}

/// Whether no job of the table stands under an identifier that the random
/// generator can give.
pub open spec fn no_random_id_taken(store: JobStoreView) -> bool {
    forall|bits: u128| is_random_uuid(bits) ==> !has_job(store.jobs, #[trigger] uuid_text(bits))
}

/// Whether an owner is admitted with one more job. An anonymous job is always
/// admitted. An owner is refused once as many of their jobs are pending or
/// processing as their limit allows.
pub open spec fn admission(store: JobStoreView, owner: Option<Seq<char>>) -> Result<
    (),
    AppErrorView,
> {
    match owner {
        None => Ok(()),
        Some(key) => match job_limit_of(store.api_keys, key) {
            None => Err(AppErrorView::Internal(store_error_text(StoreError::RowNotFound))),
            Some(limit) => {
                let active = owner_active_count(store.jobs, key);
                if active >= limit {
                    Err(AppErrorView::TooManyJobs(limit_reached_text(active, limit as int)))
                } else {
                    Ok(())
                }
            },
        },
    }
}

/// The directory that holds the files of a job.
pub open spec fn job_dir(temp_dir: Seq<char>, id: JobId) -> Seq<char> {
    joined(temp_dir, id.text())
}

/// Where the input of a job is stored.
pub open spec fn input_path_of(temp_dir: Seq<char>, id: JobId, input_format: Seq<char>) -> Seq<
    char,
> {
    joined(job_dir(temp_dir, id), "input."@ + input_format)
}

/// When the result of a job expires: nothing where the request sets no
/// horizon, otherwise the instant that many hours after `now`, which the
/// calendar may not hold.
pub open spec fn expiry_of(now: Timestamp, hours: Option<i64>) -> Option<Option<Seq<char>>> {
    match hours {
        None => Some(None),
        Some(h) => match now.text_at(h * 3600) {
            Some(t) => Some(Some(t)),
            None => None,
        },
    }
}

/// The record of a job as it is first stored: pending, without progress, never
/// retried.
pub open spec fn pending_record(
    temp_dir: Seq<char>,
    id: JobId,
    request: JobRequestView,
    now: Seq<char>,
    expires_at: Option<Seq<char>>,
) -> JobRecordView {
    JobRecordView {
        id: id.text(),
        api_key_id: request.api_key_id,
        conversion_type: request.conversion_type.text(),
        input_format: request.input_format,
        output_format: request.output_format,
        quality: match request.quality {
            Some(q) => Some(q as i64),
            None => None,
        },
        status: JobStatus::Pending.text(),
        progress: 0,
        progress_message: None,
        input_path: input_path_of(temp_dir, id, request.input_format),
        result_path: None,
        error: None,
        file_size_bytes: Some(request.file_size),
        created_at: now,
        started_at: None,
        completed_at: None,
        updated_at: now,
        priority: match request.priority {
            Some(p) => Some(p),
            None => Some("normal"@),
        },
        webhook_url: request.webhook_url,
        source_url: request.source_url,
        expires_at,
        retry_count: Some(0),
        original_filename: request.original_filename,
        drive_file_id: None,
    }
}

/// What submitting a job comes to: the record to store, or the error with
/// which the job is refused. Admission is checked first, then the expiry, then
/// that the identifier is new.
pub open spec fn submission(
    temp_dir: Seq<char>,
    store: JobStoreView,
    id: JobId,
    request: JobRequestView,
    now: Timestamp,
) -> Result<JobRecordView, AppErrorView> {
    match admission(store, request.api_key_id) {
        Err(e) => Err(e),
        Ok(_) => match expiry_of(now, request.expires_in_hours) {
            None => Err(AppErrorView::BadRequest(invalid_expiry_text())),
            Some(expires_at) => if has_job(store.jobs, id.text()) {
                Err(AppErrorView::Internal(store_error_text(StoreError::DuplicateId)))
            } else {
                Ok(pending_record(temp_dir, id, request, now.text(), expires_at))
            },
        },
    }
}

/// The event that announces a job in the given state.
pub open spec fn event_of(
    id: JobId,
    status: JobStatus,
    progress: u8,
    message: Option<Seq<char>>,
    now: Seq<char>,
) -> ProgressUpdateView {
    ProgressUpdateView { job_id: id, status, progress, message, timestamp: now }
}

/// The engine: the directory under which the files of the jobs are kept, the
/// job table, the progress hub and the permits.
pub struct JobQueueInner {
    pub temp_dir: String,
    pub db: JobStore,
    pub hub: ProgressHub,
    pub permits: Semaphore,
}

/// An engine that keeps the files of its jobs under `temp_dir`.
pub fn create_job_queue(temp_dir: String) -> (r: JobQueueInner)
    ensures
        r.temp_dir@ == temp_dir@,
        r.db@.jobs.len() == 0,
        r.db@.api_keys.len() == 0,
        r.hub.history().len() == 0,
        r.hub.capacity() == PROGRESS_CHANNEL_CAPACITY,
        r.permits.capacity() == MAX_CONCURRENT_JOBS,
        r.permits.in_use() == 0,
{
    JobQueueInner::new(temp_dir)
}

impl JobQueueInner {
    /// An engine with an empty table, an empty hub and all permits free.
    pub fn new(temp_dir: String) -> (r: Self)
        ensures
            r.temp_dir@ == temp_dir@,
            r.db@.jobs.len() == 0,
            r.db@.api_keys.len() == 0,
            r.hub.history().len() == 0,
            r.hub.capacity() == PROGRESS_CHANNEL_CAPACITY,
            r.permits.capacity() == MAX_CONCURRENT_JOBS,
            r.permits.in_use() == 0,
    {
        JobQueueInner {
            temp_dir,
            db: JobStore::new(),
            hub: ProgressHub::new(PROGRESS_CHANNEL_CAPACITY),
            permits: Semaphore::new(MAX_CONCURRENT_JOBS),
        }
    }

    /// Whether the engine differs from an earlier one in nothing but its table
    /// and the history of its hub. The oldest event that the hub keeps follows
    /// from its history and its capacity, so a step that gives the history
    /// gives that event too.
    pub open spec fn same_frame(self, before: Self) -> bool {
        &&& self.temp_dir == before.temp_dir
        &&& self.permits == before.permits
        &&& self.hub.capacity() == before.hub.capacity()
    }

    /// Sends an event to every subscriber. The hub drops its oldest event
    /// where it is full.
    pub fn send_progress(&mut self, update: ProgressUpdate)
        ensures
            final(self).hub.history() == after_publish(old(self).hub.history(), update@),
            final(self).hub.oldest() == ProgressHub::oldest_of(
                after_publish(old(self).hub.history(), update@).len(),
                old(self).hub.capacity(),
            ),
            final(self).db == old(self).db,
            final(self).same_frame(*old(self)),
    {
        let _ = self.hub.send(update);
    }

    /// A receiver of the events that are sent from now on.
    pub fn subscribe(&self) -> (r: ProgressReceiver)
        ensures
            r.next == self.hub.history().len(),
    {
        self.hub.subscribe()
    }

    /// The job table.
    pub fn db(&self) -> (r: &JobStore)
        ensures
            *r == self.db,
    {
        &self.db
    }

    /// The permits that bound how many jobs are converted at once.
    pub fn semaphore(&self) -> (r: &Semaphore)
        ensures
            *r == self.permits,
    {
        &self.permits
    }

    /// Decides whether the owner may submit one more job.
    pub fn check_admission(&self, api_key_id: &Option<String>) -> (r: Result<(), AppError>)
        ensures
            match r {
                Ok(_) => admission(self.db@, api_key_id.deep_view()) is Ok,
                Err(e) => admission(self.db@, api_key_id.deep_view()) == Err::<(), AppErrorView>(e@),
            },
    {
        match api_key_id {
            None => Ok(()),
            Some(key) => {
                let active: usize = count_user_active_jobs(&self.db, key.as_str());
                match get_user_job_limit(&self.db, key.as_str()) {
                    Err(e) => Err(AppError::Internal(store_error_message(e))),
                    Ok(limit) => {
                        if limit <= 0 || (active as u64) >= (limit as u64) {
                            let mut text = glue(
                                "Limite job raggiunto: ",
                                u64_to_string(active as u64).as_str(),
                            );
                            text.append("/");
                            text.append(i64_to_string(limit).as_str());
                            Err(AppError::TooManyJobs(text))
                        } else {
                            Ok(())
                        }
                    },
                }
            },
        }
    }

    /// Submits a job with a fresh identifier at the current time. See
    /// `submit` for what is stored and sent. An admitted job without an expiry
    /// is accepted unless its identifier is already taken, so it is always
    /// accepted where the table holds no job under a random identifier.
    pub fn create_job(
        &mut self,
        conversion_type: ConversionType,
        file_size: i64,
        input_format: String,
        output_format: String,
        quality: Option<u8>,
        api_key_id: Option<String>,
        priority: Option<String>,
        webhook_url: Option<String>,
        source_url: Option<String>,
        expires_in_hours: Option<i64>,
        original_filename: Option<String>,
    ) -> (r: Result<JobId, AppError>)
        ensures
            final(self).same_frame(*old(self)),
            final(self).db@.api_keys == old(self).db@.api_keys,
            r is Err ==> final(self).db@ == old(self).db@ && final(self).hub.history() == old(
                self,
            ).hub.history(),
            admission(old(self).db@, api_key_id.deep_view()) matches Err(e) ==> (r matches Err(
                err,
            ) && err@ == e),
            admission(old(self).db@, api_key_id.deep_view()) is Ok && expires_in_hours is None
                ==> (r is Ok || (r matches Err(err) && err@ == AppErrorView::Internal(
                store_error_text(StoreError::DuplicateId),
            ))),
            r matches Err(err) ==> admission(old(self).db@, api_key_id.deep_view())
                == Err::<(), AppErrorView>(err@) || err@ == AppErrorView::BadRequest(
                invalid_expiry_text(),
            ) || err@ == AppErrorView::Internal(store_error_text(StoreError::DuplicateId)),
            admission(old(self).db@, api_key_id.deep_view()) is Ok && expires_in_hours is None
                && no_random_id_taken(old(self).db@) ==> r is Ok,
            r matches Ok(id) ==> {
                &&& admission(old(self).db@, api_key_id.deep_view()) is Ok
                &&& is_random_uuid(id.bits)
                &&& !has_job(old(self).db@.jobs, id.text())
                &&& exists|now: Timestamp|
                    final(self).db@.jobs.last().created_at == #[trigger] now.text()
                &&& final(self).db@.jobs.len() == old(self).db@.jobs.len() + 1
                &&& final(self).db@.jobs.drop_last() == old(self).db@.jobs
                &&& final(self).db@.jobs.last() == pending_record(
                    old(self).temp_dir@,
                    id,
                    (JobRequestView {
                        conversion_type,
                        file_size,
                        input_format: input_format@,
                        output_format: output_format@,
                        quality,
                        api_key_id: api_key_id.deep_view(),
                        priority: priority.deep_view(),
                        webhook_url: webhook_url.deep_view(),
                        source_url: source_url.deep_view(),
                        expires_in_hours,
                        original_filename: original_filename.deep_view(),
                    }),
                    final(self).db@.jobs.last().created_at,
                    final(self).db@.jobs.last().expires_at,
                )
                &&& final(self).hub.history() == after_publish(
                    old(self).hub.history(),
                    event_of(
                        id,
                        JobStatus::Pending,
                        0,
                        None,
                        final(self).db@.jobs.last().created_at,
                    ),
                )
            },
    {
        let request = JobRequest {
            conversion_type,
            file_size,
            input_format,
            output_format,
            quality,
            api_key_id,
            priority,
            webhook_url,
            source_url,
            expires_in_hours,
            original_filename,
        };
        let id = JobId::new_random();
        let now = Timestamp::now();
        let r = self.submit(request, id, &now);
        proof {
            if r is Ok {
                let jobs = self.db@.jobs;
                assert(jobs.drop_last() =~= old(self).db@.jobs);
                assert(jobs.last().created_at == now.text());
            }
        }
        r
    }

    /// Submits a job under the given identifier at the given time: checks
    /// admission, stores the pending record and announces it. A refused job
    /// leaves the engine as it was.
    pub fn submit(&mut self, request: JobRequest, id: JobId, now: &Timestamp) -> (r: Result<
        JobId,
        AppError,
    >)
        ensures
            final(self).same_frame(*old(self)),
            final(self).db@.api_keys == old(self).db@.api_keys,
            match submission(old(self).temp_dir@, old(self).db@, id, request@, *now) {
                Ok(record) => r == Ok::<JobId, AppError>(id) && final(self).db@.jobs == old(self).db@.jobs.push(record) && final(self).hub.history() == after_publish(
                    old(self).hub.history(),
                    event_of(id, JobStatus::Pending, 0, None, now.text()),
                ),
                Err(e) => r matches Err(err) && err@ == e && final(self).db@ == old(self).db@
                    && final(self).hub.history() == old(self).hub.history(),
            },
    {
        match self.check_admission(&request.api_key_id) {
            Err(e) => {
                return Err(e);
            },
            Ok(_) => {},
        }
        let expires_at: Option<String> = match request.expires_in_hours {
            None => None,
            Some(h) => match now.rfc3339_at(h, 3600, false) {
                Some(t) => Some(t),
                None => {
                    return Err(
                        AppError::BadRequest("Scadenza del risultato non valida".to_string()),
                    );
                },
            },
        };
        let id_text: String = id.to_string();
        let dir: String = join(self.temp_dir.as_str(), id_text.as_str());
        let file_name: String = glue("input.", request.input_format.as_str());
        let input_path: String = join(dir.as_str(), file_name.as_str());
        let record = JobRecord {
            id: id_text,
            api_key_id: request.api_key_id,
            conversion_type: request.conversion_type.to_string(),
            input_format: request.input_format,
            output_format: request.output_format,
            quality: match request.quality {
                Some(q) => Some(q as i64),
                None => None,
            },
            status: "pending".to_string(),
            progress: 0,
            progress_message: None,
            input_path,
            result_path: None,
            error: None,
            file_size_bytes: Some(request.file_size),
            created_at: now.to_rfc3339(),
            started_at: None,
            completed_at: None,
            updated_at: now.to_rfc3339(),
            priority: match request.priority {
                Some(p) => Some(p),
                None => Some("normal".to_string()),
            },
            webhook_url: request.webhook_url,
            source_url: request.source_url,
            expires_at,
            retry_count: Some(0),
            original_filename: request.original_filename,
            drive_file_id: None,
        };
        match create_job(&mut self.db, &record) {
            Err(e) => Err(AppError::Internal(store_error_message(e))),
            Ok(_) => {
                self.send_progress(ProgressUpdate::at(id, JobStatus::Pending, 0, None, now));
                Ok(id)
            },
        }
    }
    /// The job with the given identifier, read from its record.
    pub fn get_job(&self, id: &JobId) -> (r: Option<Job>)
        ensures
            match job_of(self.db@.jobs, id.text()) {
                Some(rec) => r matches Some(job) && job.id == *id && exists|now: Timestamp|
                    job@ == #[trigger] job_view_of(rec, *id, now.text()),
                None => r is None,
            },
    {
        let id_text: String = id.to_string();
        match get_job(&self.db, id_text.as_str()) {
            Some(rec) => {
                let now = Timestamp::now();
                let job = job_from_record_with(&rec, *id, &now);
                proof {
                    lemma_job_index(self.db@.jobs, id.text());
                    assert(job@ == job_view_of(rec@, *id, now.text()));
                }
                Some(job)
            },
            None => None,
        }
    }

    /// Removes a job from the table. Returns the directory and the result file
    /// of the job, for the caller to delete.
    pub fn delete_job(&mut self, id: &JobId) -> (r: Result<DeletedFiles, AppError>)
        ensures
            final(self).same_frame(*old(self)),
            final(self).hub.history() == old(self).hub.history(),
            final(self).db@.api_keys == old(self).db@.api_keys,
            match job_of(old(self).db@.jobs, id.text()) {
                Some(rec) => r matches Ok(files) && files.job_dir@ == job_dir(
                    old(self).temp_dir@,
                    *id,
                ) && files.result_path.deep_view() == rec.result_path && final(self).db@.jobs
                    == old(self).db@.jobs.remove(job_index(old(self).db@.jobs, id.text())),
                None => r matches Err(e) && e@ == AppErrorView::JobNotFound(id.text()) && final(self).db@ == old(self).db@,
            },
    {
        let id_text: String = id.to_string();
        match get_job(&self.db, id_text.as_str()) {
            Some(rec) => {
                let dir: String = join(self.temp_dir.as_str(), id_text.as_str());
                let _ = delete_job(&mut self.db, id_text.as_str());
                Ok(DeletedFiles { job_dir: dir, result_path: rec.result_path })
            },
            None => Err(AppError::JobNotFound(id_text)),
        }
    }

    /// What a status step leaves of the engine: the table after the update,
    /// and the event of the new state in the hub where the update applied.
    pub open spec fn status_step(
        before: Self,
        after: Self,
        id: JobId,
        status: JobStatus,
        progress: i64,
        message: Option<Seq<char>>,
        error: Option<Seq<char>>,
        result_path: Option<Seq<char>>,
        now: Seq<char>,
        applied: bool,
    ) -> bool {
        &&& applied == status_update_applies(
            before.db@,
            id.text(),
            status.text(),
            progress,
            error,
            result_path,
        )
        &&& after.db@ == after_status_update(
            before.db@,
            id.text(),
            status.text(),
            progress,
            message,
            error,
            result_path,
            now,
        )
        &&& after.hub.history() == if applied {
            after_publish(
                before.hub.history(),
                event_of(id, status, progress as u8, message, now),
            )
        } else {
            before.hub.history()
        }
        &&& after.same_frame(before)
    }

    fn apply_status(
        &mut self,
        id: &JobId,
        status: JobStatus,
        progress: u8,
        message: Option<String>,
        error: Option<&str>,
        result_path: Option<&str>,
        now: &Timestamp,
    ) -> (r: bool)
        ensures
            Self::status_step(
                *old(self),
                *final(self),
                *id,
                status,
                progress as i64,
                message.deep_view(),
                error.deep_view(),
                result_path.deep_view(),
                now.text(),
                r,
            ),
    {
        let id_text: String = id.to_string();
        let text: Option<&str> = match &message {
            Some(m) => Some(m.as_str()),
            None => None,
        };
        let applied: bool = update_job_status(
            &mut self.db,
            id_text.as_str(),
            status.as_str(),
            progress as i64,
            text,
            error,
            result_path,
            now,
        );
        if applied {
            self.send_progress(ProgressUpdate::at(*id, status, progress, message, now));
        }
        applied
    }

    /// What a progress report leaves of the engine: a status step to
    /// `processing` with the reported progress where the job is processing, and
    /// nothing otherwise.
    pub open spec fn progress_step(
        before: Self,
        after: Self,
        id: JobId,
        progress: u8,
        message: Option<Seq<char>>,
        now: Seq<char>,
        applied: bool,
    ) -> bool {
        if is_processing(before.db@, id) {
            Self::status_step(
                before,
                after,
                id,
                JobStatus::Processing,
                percent(progress) as i64,
                message,
                None,
                None,
                now,
                applied,
            )
        } else {
            !applied && after.db@ == before.db@ && after.hub.history() == before.hub.history()
                && after.same_frame(before)
        }
    }

    /// Records the progress of a processing job at the current time and
    /// announces it. See `update_job_progress_at`.
    pub fn update_job_progress(&mut self, id: &JobId, progress: u8, message: Option<String>) -> (r:
        bool)
        ensures
            exists|now: Timestamp| #[trigger]
                Self::progress_step(
                    *old(self),
                    *final(self),
                    *id,
                    progress,
                    message.deep_view(),
                    now.text(),
                    r,
                ),
    {
        let now = Timestamp::now();
        self.update_job_progress_at(id, progress, message, &now)
    }

    /// Records the progress of a processing job, capped at 100, and announces
    /// it. Returns whether the job took the report: it must be processing, and
    /// its progress does not go back.
    pub fn update_job_progress_at(
        &mut self,
        id: &JobId,
        progress: u8,
        message: Option<String>,
        now: &Timestamp,
    ) -> (r: bool)
        ensures
            Self::progress_step(
                *old(self),
                *final(self),
                *id,
                progress,
                message.deep_view(),
                now.text(),
                r,
            ),
    {
        let id_text: String = id.to_string();
        let i: usize = self.db.position(id_text.as_str());
        if i >= self.db.jobs.len() {
            return false;
        }
        if !str_eq(self.db.jobs[i].status.as_str(), "processing") {
            return false;
        }
        let capped: u8 = if progress > 100 {
            100
        } else {
            progress
        };
        self.apply_status(id, JobStatus::Processing, capped, message, None, None, now)
    }

    /// What starting a job leaves of the engine: a status step to `processing`
    /// with no progress where the job is pending, and nothing otherwise.
    pub open spec fn start_step(
        before: Self,
        after: Self,
        id: JobId,
        now: Seq<char>,
        applied: bool,
    ) -> bool {
        if is_pending(before.db@, id) {
            Self::status_step(
                before,
                after,
                id,
                JobStatus::Processing,
                0,
                Some(starting_message()),
                None,
                None,
                now,
                applied,
            )
        } else {
            !applied && after.db@ == before.db@ && after.hub.history() == before.hub.history()
                && after.same_frame(before)
        }
    }

    /// Starts a pending job at the current time. See `mark_job_processing_at`.
    pub fn mark_job_processing(&mut self, id: &JobId) -> (r: bool)
        ensures
            exists|now: Timestamp| #[trigger]
                Self::start_step(*old(self), *final(self), *id, now.text(), r),
    {
        let now = Timestamp::now();
        self.mark_job_processing_at(id, &now)
    }

    /// Moves a pending job to `processing` with no progress and announces it.
    /// Returns whether the job started.
    pub fn mark_job_processing_at(&mut self, id: &JobId, now: &Timestamp) -> (r: bool)
        ensures
            Self::start_step(*old(self), *final(self), *id, now.text(), r),
    {
        let id_text: String = id.to_string();
        let i: usize = self.db.position(id_text.as_str());
        if i >= self.db.jobs.len() {
            return false;
        }
        if !str_eq(self.db.jobs[i].status.as_str(), "pending") {
            return false;
        }
        self.apply_status(
            id,
            JobStatus::Processing,
            0,
            Some("Avvio conversione...".to_string()),
            None,
            None,
            now,
        )
    }

    /// Completes a processing job at the current time. See
    /// `mark_job_completed_at`.
    pub fn mark_job_completed(&mut self, id: &JobId, result_path: String) -> (r: bool)
        ensures
            exists|now: Timestamp| #[trigger]
                Self::status_step(
                    *old(self),
                    *final(self),
                    *id,
                    JobStatus::Completed,
                    100,
                    Some(completed_message()),
                    None,
                    Some(result_path@),
                    now.text(),
                    r,
                ),
    {
        let now = Timestamp::now();
        self.mark_job_completed_at(id, result_path, &now)
    }

    /// Moves a processing job to `completed` with its result and full progress,
    /// and announces it. Returns whether the job completed.
    pub fn mark_job_completed_at(&mut self, id: &JobId, result_path: String, now: &Timestamp) -> (r:
        bool)
        ensures
            Self::status_step(
                *old(self),
                *final(self),
                *id,
                JobStatus::Completed,
                100,
                Some(completed_message()),
                None,
                Some(result_path@),
                now.text(),
                r,
            ),
    {
        self.apply_status(
            id,
            JobStatus::Completed,
            100,
            Some("Conversione completata!".to_string()),
            None,
            Some(result_path.as_str()),
            now,
        )
    }

    /// What failing a job leaves of the engine. The progress of the job stays
    /// where it was.
    pub open spec fn failure_step(
        before: Self,
        after: Self,
        id: JobId,
        error: Seq<char>,
        now: Seq<char>,
        applied: bool,
    ) -> bool {
        match job_of(before.db@.jobs, id.text()) {
            Some(rec) => Self::status_step(
                before,
                after,
                id,
                JobStatus::Failed,
                rec.progress,
                Some(failure_message(error)),
                Some(error),
                None,
                now,
                applied,
            ),
            None => !applied && after.db@ == before.db@ && after.hub.history()
                == before.hub.history() && after.same_frame(before),
        }
    }

    /// Fails a processing job at the current time. See `mark_job_failed_at`.
    pub fn mark_job_failed(&mut self, id: &JobId, error: String) -> (r: bool)
        ensures
            exists|now: Timestamp| #[trigger]
                Self::failure_step(*old(self), *final(self), *id, error@, now.text(), r),
    {
        let now = Timestamp::now();
        self.mark_job_failed_at(id, error, &now)
    }

    /// Moves a processing job to `failed` with its error and announces it.
    /// Returns whether the job failed.
    pub fn mark_job_failed_at(&mut self, id: &JobId, error: String, now: &Timestamp) -> (r: bool)
        ensures
            Self::failure_step(*old(self), *final(self), *id, error@, now.text(), r),
    {
        let id_text: String = id.to_string();
        let i: usize = self.db.position(id_text.as_str());
        if i >= self.db.jobs.len() {
            return false;
        }
        let current: i64 = self.db.jobs[i].progress;
        if current < 0 || current > 100 {
            return false;
        }
        self.apply_status(
            id,
            JobStatus::Failed,
            current as u8,
            Some(glue("Errore: ", error.as_str())),
            Some(error.as_str()),
            None,
            now,
        )
    }
}

/// Whether a job is stored as `pending`.
pub open spec fn is_pending(store: JobStoreView, id: JobId) -> bool {
    job_of(store.jobs, id.text()) matches Some(rec) && rec.status == JobStatus::Pending.text()
}

/// Whether a job is stored as `processing`.
pub open spec fn is_processing(store: JobStoreView, id: JobId) -> bool {
    job_of(store.jobs, id.text()) matches Some(rec) && rec.status == JobStatus::Processing.text()
}

/// A progress report capped at 100.
pub open spec fn percent(progress: u8) -> u8 {
    if progress > 100 {
        100
    } else {
        progress
    }
}

/// The files that a deleted job leaves behind.
pub struct DeletedFiles {
    pub job_dir: String,
    pub result_path: Option<String>,
}

/// The job that a record describes. An unknown status counts as `Pending`, an
/// unknown category as `Image`. Where the identifier or the creation time of
/// the record cannot be read, the given ones stand in; a completion time that
/// cannot be read is dropped.
pub open spec fn job_view_of(rec: JobRecordView, fallback_id: JobId, now: Seq<char>) -> JobView {
    JobView {
        id: match JobId::parsed(rec.id) {
            Some(id) => id,
            None => fallback_id,
        },
        status: JobStatus::of_text(rec.status),
        conversion_type: ConversionType::of_text(rec.conversion_type),
        input_path: rec.input_path,
        input_format: rec.input_format,
        output_format: rec.output_format,
        quality: match rec.quality {
            Some(q) => Some(q as u8),
            None => None,
        },
        created_at: match Timestamp::normalized(rec.created_at) {
            Some(t) => t,
            None => now,
        },
        completed_at: match rec.completed_at {
            Some(t) => Timestamp::normalized(t),
            None => None,
        },
        result_path: rec.result_path,
        error: rec.error,
        progress: rec.progress as u8,
        progress_message: rec.progress_message,
    }
}

/// The job that a record describes, with a random identifier and the current
/// time standing in for what cannot be read.
pub fn job_from_record(r: &JobRecord) -> (job: Job)
    ensures
        exists|fallback: JobId, now: Timestamp|
            job@ == #[trigger] job_view_of(r@, fallback, now.text()),
{
    let fallback = JobId::new_random();
    let now = Timestamp::now();
    let job = job_from_record_with(r, fallback, &now);
    assert(job@ == job_view_of(r@, fallback, now.text()));
    job
}

/// The job that a record describes, with the given identifier and time
/// standing in for what cannot be read.
pub fn job_from_record_with(r: &JobRecord, fallback_id: JobId, now: &Timestamp) -> (job: Job)
    ensures
        job@ == job_view_of(r@, fallback_id, now.text()),
{
    let status: JobStatus = match JobStatus::parse(r.status.as_str()) {
        Some(s) => s,
        None => JobStatus::Pending,
    };
    let conversion_type: ConversionType = match ConversionType::parse(r.conversion_type.as_str()) {
        Some(t) => t,
        None => ConversionType::Image,
    };
    let id: JobId = match JobId::parse_str(r.id.as_str()) {
        Some(id) => id,
        None => fallback_id,
    };
    let created_at: Timestamp = match Timestamp::parse(r.created_at.as_str()) {
        Some(t) => t,
        None => now.copy(),
    };
    let completed_at: Option<Timestamp> = match &r.completed_at {
        Some(t) => Timestamp::parse(t.as_str()),
        None => None,
    };
    Job {
        id,
        status,
        conversion_type,
        input_path: r.input_path.clone(),
        input_format: r.input_format.clone(),
        output_format: r.output_format.clone(),
        quality: match r.quality {
            Some(q) => Some(#[verifier::truncate] (q as u8)),
            None => None,
        },
        created_at,
        completed_at,
        result_path: clone_opt(&r.result_path),
        error: clone_opt(&r.error),
        progress: #[verifier::truncate] (r.progress as u8),
        progress_message: clone_opt(&r.progress_message),
    }
}

} // verus!
