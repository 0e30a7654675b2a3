//! Retrying and cancelling jobs.

use vstd::prelude::*;
use crate::clock::Timestamp;
use crate::db::api_keys::ApiKeyRole;
use crate::db::jobs::{
    after_cancel, after_retry_reset, cancel_job as cancel_record, cancel_message, get_job, has_job,
    job_index, job_of, list_jobs as list_records, newest_first, page_of, records_where,
    reset_job_for_retry, JobRecordView, JobsListResponse, JobsQuery, StoreError,
};
use crate::error::{store_error_text, AppError, AppErrorView};
use crate::ident::JobId;
use crate::models::auth::AuthInfo;
use crate::models::job::{JobStatus, ProgressUpdate};
use crate::models::request::CreateJobRequest;
use crate::models::response::{JobCreatedResponse, JobResponse, JobResponseView};
use crate::paths::{extension, extension_of};
use crate::services::queue::{
    admission, after_publish, event_of, get_job_result, invalid_expiry_text,
    job_from_record_with, job_view_of, no_random_id_taken, pending_record, DeletedFiles,
    JobQueueInner, JobRequestView,
};
use crate::text::{
    after_last, before_first, chars_of, clone_opt, decimal, find_after_last, find_first, glue,
    glue3, i64_to_string, lemma_first_index, lemma_last_index, lowercase, str_eq,
    string_from_range,
};
use crate::utils::content_type::{content_type_of, get_content_type};

verus! {

/// How often a failed job may be retried.
pub const MAX_RETRIES: i64 = 3;

/// The text with which a retry of a job that has not failed is refused.
pub open spec fn not_failed_text() -> Seq<char> {
    "Solo i job falliti possono essere ritentati"@
}

/// The text with which a retry beyond the limit is refused.
pub open spec fn retries_exhausted_text(count: int) -> Seq<char> {
    "Numero massimo di retry raggiunto ("@ + decimal(count) + "/"@ + decimal(MAX_RETRIES as int)
        + ")"@
}

/// The text that confirms a retry.
pub open spec fn retry_accepted_text(count: int) -> Seq<char> {
    "Job rimesso in coda (retry "@ + decimal(count) + "/"@ + decimal(MAX_RETRIES as int) + ")"@
}

/// The text with which the cancellation of a job that has ended is refused.
pub open spec fn not_cancellable_text(status: Seq<char>) -> Seq<char> {
    "Il job con stato '"@ + status + "' non può essere cancellato"@
}

/// A retry that was accepted: the job to dispatch again, and how often it has
/// now been retried.
pub struct RetryAccepted {
    pub job_id: JobId,
    pub retry_count: i64,
    pub message: String,
}

/// Why a retry of the record is refused, if it is: the job has not failed, or
/// it has been retried three times.
pub open spec fn retry_refusal(rec: JobRecordView) -> Option<AppErrorView> {
    if rec.status != JobStatus::Failed.text() {
        Some(AppErrorView::InvalidTransition(not_failed_text()))
    } else if rec.retries() >= MAX_RETRIES {
        Some(AppErrorView::InvalidTransition(retries_exhausted_text(rec.retries())))
    } else {
        None
    }
}

/// What a retry request does to the engine and returns.
///
/// A text that is no identifier, and an unknown job, are reported as not
/// found. A job that has not failed, or that has been retried three times, is
/// refused. In all these cases the engine stays as it is. Any other job is
/// reset: it is pending again, with no progress, no error and one more retry
/// counted. The hub is sent nothing.
pub open spec fn retry_step(
    before: JobQueueInner,
    after: JobQueueInner,
    id: Seq<char>,
    now: Seq<char>,
    r: Result<RetryAccepted, AppError>,
) -> bool {
    &&& after.same_frame(before)
    &&& after.hub.history() == before.hub.history()
    &&& match (JobId::parsed(id), job_of(before.db@.jobs, id)) {
        (Some(job_id), Some(rec)) => match retry_refusal(rec) {
            Some(refusal) => after.db@ == before.db@ && (r matches Err(e) && e@ == refusal),
            None => {
                &&& after.db@ == after_retry_reset(before.db@, id, now)
                &&& r matches Ok(accepted)
                &&& accepted.job_id == job_id
                &&& accepted.retry_count == rec.retries() + 1
                &&& accepted.message@ == retry_accepted_text(rec.retries() + 1)
            },
        },
        _ => after.db@ == before.db@ && (r matches Err(e) && e@ == AppErrorView::JobNotFound(id)),
    }
}

/// Puts a failed job back in the queue at the current time. See `retry_step`.
pub fn retry_job(queue: &mut JobQueueInner, id: &str) -> (r: Result<RetryAccepted, AppError>)
    ensures
        exists|now: Timestamp| #[trigger]
            retry_step(*old(queue), *final(queue), id@, now.text(), r),
{
    let now = Timestamp::now();
    retry_job_at(queue, id, &now)
}

/// Puts a failed job back in the queue. See `retry_step`.
pub fn retry_job_at(queue: &mut JobQueueInner, id: &str, now: &Timestamp) -> (r: Result<
    RetryAccepted,
    AppError,
>)
    ensures
        retry_step(*old(queue), *final(queue), id@, now.text(), r),
{
    let job_id: JobId = match JobId::parse_str(id) {
        Some(j) => j,
        None => {
            return Err(AppError::JobNotFound(id.to_string()));
        },
    };
    let rec = match get_job(&queue.db, id) {
        Some(rec) => rec,
        None => {
            return Err(AppError::JobNotFound(id.to_string()));
        },
    };
    if !str_eq(rec.status.as_str(), "failed") {
        return Err(
            AppError::InvalidTransition("Solo i job falliti possono essere ritentati".to_string()),
        );
    }
    let count: i64 = match rec.retry_count {
        Some(n) => n,
        None => 0,
    };
    if count >= MAX_RETRIES {
        let mut text = glue3(
            "Numero massimo di retry raggiunto (",
            i64_to_string(count).as_str(),
            "/",
        );
        text.append(i64_to_string(MAX_RETRIES).as_str());
        text.append(")");
        return Err(AppError::InvalidTransition(text));
    }
    proof {
        crate::db::jobs::lemma_job_index(queue.db@.jobs, id@);
    }
    let reset: bool = reset_job_for_retry(&mut queue.db, id, now);
    assert(reset);
    let mut text = glue3("Job rimesso in coda (retry ", i64_to_string(count + 1).as_str(), "/");
    text.append(i64_to_string(MAX_RETRIES).as_str());
    text.append(")");
    Ok(RetryAccepted { job_id, retry_count: count + 1, message: text })
}

/// The progress with which the cancellation of a record is announced: the
/// stored progress where it is a percentage, otherwise none.
pub open spec fn announced_progress(rec: JobRecordView) -> u8 {
    if 0 <= rec.progress <= 100 {
        rec.progress as u8
    } else {
        0
    }
}

/// What a cancellation request does to the engine and returns.
///
/// A text that is no identifier, and an unknown job, are reported as not
/// found. A job that is neither pending nor processing is refused. In all
/// these cases the engine stays as it is and the hub is sent nothing. Any
/// other job is marked cancelled, and the hub is sent the terminal event at
/// once, with the progress that the job had reached.
pub open spec fn cancel_step(
    before: JobQueueInner,
    after: JobQueueInner,
    id: Seq<char>,
    now: Seq<char>,
    r: Result<(), AppError>,
) -> bool {
    &&& after.same_frame(before)
    &&& match (JobId::parsed(id), job_of(before.db@.jobs, id)) {
        (Some(job_id), Some(rec)) => if !rec.is_active() {
            after.db@ == before.db@ && after.hub.history() == before.hub.history() && (
            r matches Err(e) && e@ == AppErrorView::InvalidTransition(
                not_cancellable_text(rec.status),
            ))
        } else {
            &&& after.db@ == after_cancel(before.db@, id, now)
            &&& r is Ok
            &&& after.hub.history() == after_publish(
                before.hub.history(),
                event_of(
                    job_id,
                    JobStatus::Cancelled,
                    announced_progress(rec),
                    Some(cancel_message()),
                    now,
                ),
            )
        },
        _ => after.db@ == before.db@ && after.hub.history() == before.hub.history() && (
        r matches Err(e) && e@ == AppErrorView::JobNotFound(id)),
    }
}

/// Cancels a pending or processing job at the current time. See
/// `cancel_step`.
pub fn cancel_job(queue: &mut JobQueueInner, id: &str) -> (r: Result<(), AppError>)
    ensures
        exists|now: Timestamp| #[trigger]
            cancel_step(*old(queue), *final(queue), id@, now.text(), r),
{
    let now = Timestamp::now();
    cancel_job_at(queue, id, &now)
}

/// Cancels a pending or processing job. See `cancel_step`.
pub fn cancel_job_at(queue: &mut JobQueueInner, id: &str, now: &Timestamp) -> (r: Result<
    (),
    AppError,
>)
    ensures
        cancel_step(*old(queue), *final(queue), id@, now.text(), r),
{
    let job_id: JobId = match JobId::parse_str(id) {
        Some(j) => j,
        None => {
            return Err(AppError::JobNotFound(id.to_string()));
        },
    };
    let rec = match get_job(&queue.db, id) {
        Some(rec) => rec,
        None => {
            return Err(AppError::JobNotFound(id.to_string()));
        },
    };
    if !rec.is_active() {
        return Err(
            AppError::InvalidTransition(
                glue3("Il job con stato '", rec.status.as_str(), "' non può essere cancellato"),
            ),
        );
    }
    proof {
        crate::db::jobs::lemma_job_index(queue.db@.jobs, id@);
    }
    let cancelled: bool = cancel_record(&mut queue.db, id, now);
    assert(cancelled);
    let progress: u8 = if 0 <= rec.progress && rec.progress <= 100 {
        rec.progress as u8
    } else {
        0
    };
    queue.send_progress(
        ProgressUpdate::at(
            job_id,
            JobStatus::Cancelled,
            progress,
            Some("Job cancellato dall'utente".to_string()),
            now,
        ),
    );
    Ok(())
}

/// A page of the history of a user.
#[derive(Debug)]
pub struct HistoryResponse {
    pub jobs: Vec<crate::db::stats::ConversionHistoryItem>,
}

/// Which part of the history a user asks for.
#[derive(Debug)]
pub struct HistoryQuery {
    pub limit: i64,
    /// By date: `today`, `week`, `month` or `all`.
    pub date_filter: Option<String>,
    pub input_format: Option<String>,
    pub output_format: Option<String>,
    /// By outcome: `completed`, `failed` or `all`.
    pub status: Option<String>,
}

/// How many conversions a history shows when the query names no limit.
pub fn default_history_limit() -> (r: i64)
    ensures
        r == 50,
{
    50
}

/// The text with which the listing of all jobs is refused to a user.
pub open spec fn listing_refused_text() -> Seq<char> {
    "Solo gli admin possono vedere la lista completa dei job"@
}

/// Lists the jobs of all users for an administrator.
pub fn list_jobs(queue: &JobQueueInner, auth: &AuthInfo, query: &JobsQuery) -> (r: Result<
    JobsListResponse,
    AppError,
>)
    ensures
        auth.role != ApiKeyRole::Admin ==> (r matches Err(e) && e@ == AppErrorView::Forbidden(
            listing_refused_text(),
        )),
        auth.role == ApiKeyRole::Admin ==> (r matches Ok(list) && list.jobs.deep_view() == page_of(
            newest_first(records_where(queue.db@.jobs, query@.filter())),
            query.limit,
            query.offset,
        ) && list.total == records_where(
            queue.db@.jobs,
            query@.filter(),
        ).len() && list.limit == query.limit && list.offset == query.offset),
{
    match auth.role {
        ApiKeyRole::Admin => Ok(list_records(&queue.db, query)),
        ApiKeyRole::User => Err(
            AppError::Forbidden(
                "Solo gli admin possono vedere la lista completa dei job".to_string(),
            ),
        ),
    }
}

/// The state of the job of a record, as a client sees it.
pub open spec fn response_of(rec: JobRecordView, id: JobId, now: Seq<char>) -> JobResponseView {
    let job = job_view_of(rec, id, now);
    JobResponseView {
        id: job.id.text(),
        status: job.status,
        conversion_type: job.conversion_type.text(),
        input_format: job.input_format,
        output_format: job.output_format,
        created_at: job.created_at,
        completed_at: job.completed_at,
        error: job.error,
    }
}

/// Reports the state of a job. Fails where the text is no identifier or no
/// such job is stored.
pub fn get_job_status(queue: &JobQueueInner, id: &str) -> (r: Result<JobResponse, AppError>)
    ensures
        match JobId::parsed(id@) {
            None => r matches Err(e) && e@ == AppErrorView::JobNotFound(id@),
            Some(job_id) => match job_of(queue.db@.jobs, job_id.text()) {
                None => r matches Err(e) && e@ == AppErrorView::JobNotFound(id@),
                Some(rec) => r matches Ok(response) && exists|now: Timestamp|
                    response@ == #[trigger] response_of(rec, job_id, now.text()),
            },
        },
{
    let job_id: JobId = match JobId::parse_str(id) {
        Some(j) => j,
        None => {
            return Err(AppError::JobNotFound(id.to_string()));
        },
    };
    let id_text: String = job_id.to_string();
    match get_job(&queue.db, id_text.as_str()) {
        None => Err(AppError::JobNotFound(id.to_string())),
        Some(rec) => {
            let now = Timestamp::now();
            let job = job_from_record_with(&rec, job_id, &now);
            let response = JobResponse {
                id: job.id.to_string(),
                status: job.status,
                conversion_type: job.conversion_type.to_string(),
                input_format: job.input_format,
                output_format: job.output_format,
                created_at: job.created_at.to_rfc3339(),
                completed_at: match &job.completed_at {
                    Some(t) => Some(t.to_rfc3339()),
                    None => None,
                },
                error: job.error,
            };
            assert(response@ == response_of(rec@, job_id, now.text()));
            Ok(response)
        },
    }
}

/// Removes a job and returns its files, for the caller to delete. Fails
/// where the text is no identifier or no such job is stored.
pub fn delete_job(queue: &mut JobQueueInner, id: &str) -> (r: Result<DeletedFiles, AppError>)
    ensures
        final(queue).same_frame(*old(queue)),
        final(queue).hub.history() == old(queue).hub.history(),
        match JobId::parsed(id@) {
            None => final(queue).db@ == old(queue).db@ && (r matches Err(e) && e@
                == AppErrorView::JobNotFound(id@)),
            Some(job_id) => match job_of(old(queue).db@.jobs, job_id.text()) {
                None => final(queue).db@ == old(queue).db@ && (r matches Err(e) && e@
                    == AppErrorView::JobNotFound(job_id.text())),
                Some(rec) => final(queue).db@.jobs == old(queue).db@.jobs.remove(
                    job_index(old(queue).db@.jobs, job_id.text()),
                ) && (r matches Ok(files) && files.result_path.deep_view() == rec.result_path),
            },
        },
{
    match JobId::parse_str(id) {
        None => Err(AppError::JobNotFound(id.to_string())),
        Some(job_id) => queue.delete_job(&job_id),
    }
}

/// What a download of a result is served as.
#[derive(Debug)]
pub struct Download {
    pub path: String,
    pub content_type: String,
    pub filename: String,
}

/// The extension under which the result of a record is served: that of the
/// result file where it has one, the output format of the job otherwise.
pub open spec fn served_extension(rec: JobRecordView) -> Seq<char> {
    match rec.result_path {
        Some(p) => match extension_of(p) {
            Some(e) => e,
            None => rec.output_format,
        },
        None => rec.output_format,
    }
}

/// Prepares the download of the result of a completed job: the file to read,
/// its content type and the name under which it is served. An archive of the
/// pages of a PDF is served as an archive, whatever format was asked for.
pub fn download_job_result(queue: &JobQueueInner, id: &str) -> (r: Result<Download, AppError>)
    ensures
        match JobId::parsed(id@) {
            None => r matches Err(e) && e@ == AppErrorView::JobNotFound(id@),
            Some(job_id) => match job_of(queue.db@.jobs, job_id.text()) {
                None => r matches Err(e) && e@ == AppErrorView::JobNotFound(id@),
                Some(rec) => if JobStatus::of_text(rec.status) != JobStatus::Completed {
                    r matches Err(e) && e@ == AppErrorView::JobNotCompleted
                } else {
                    match rec.result_path {
                        None => r matches Err(e) && e@ == AppErrorView::Internal(
                            "Percorso risultato mancante"@,
                        ),
                        Some(p) => r matches Ok(d) && d.path@ == p && d.content_type@
                            == content_type_of(lowercase(served_extension(rec))) && d.filename@
                            == "converted."@ + served_extension(rec),
                    }
                },
            },
        },
{
    let job_id: JobId = match JobId::parse_str(id) {
        Some(j) => j,
        None => {
            return Err(AppError::JobNotFound(id.to_string()));
        },
    };
    let id_text: String = job_id.to_string();
    let rec = match get_job(&queue.db, id_text.as_str()) {
        Some(rec) => rec,
        None => {
            return Err(AppError::JobNotFound(id.to_string()));
        },
    };
    let path: String = match get_job_result(queue, &job_id) {
        Ok(p) => p,
        Err(e) => {
            return Err(e);
        },
    };
    let ext: String = match extension(path.as_str()) {
        Some(e) => e,
        None => rec.output_format,
    };
    let content_type: String = get_content_type(ext.as_str()).to_string();
    let filename: String = glue("converted.", ext.as_str());
    Ok(Download { path, content_type, filename })
}

/// The file name that an address ends with: its last path segment without
/// the query, unless that is empty.
pub open spec fn url_filename(url: Seq<char>) -> Option<Seq<char>> {
    let name = before_first(after_last(url, '/'), '?');
    if name.len() == 0 {
        None
    } else {
        Some(name)
    }
}

/// The file name of an input that was fetched from an address.
pub fn filename_from_url(url: &str) -> (r: Option<String>)
    ensures
        r.deep_view() == url_filename(url@),
{
    let v: Vec<char> = chars_of(url);
    let n: usize = v.len();
    let start: usize = find_after_last(&v, 0, n, '/');
    let end: usize = find_first(&v, start, n, '?');
    proof {
        assert(v@.subrange(0, n as int) =~= v@);
        lemma_last_index(v@, '/');
        let file = after_last(v@, '/');
        assert(file =~= v@.subrange(start as int, n as int));
        lemma_first_index(file, '?');
        assert(before_first(file, '?') =~= v@.subrange(start as int, end as int));
    }
    if start == end {
        None
    } else {
        Some(string_from_range(&v, start, end))
    }
}

/// The file name of an uploaded input: the name that the upload carries,
/// unless it carries none but the placeholder `file`.
pub fn filename_from_upload(filename: &str) -> (r: Option<String>)
    ensures
        r.deep_view() == if filename@ == "file"@ {
            None
        } else {
            Some(filename@)
        },
{
    if str_eq(filename, "file") {
        None
    } else {
        Some(filename.to_string())
    }
}

/// The text that confirms a submitted job.
pub open spec fn job_created_text() -> Seq<char> {
    "Job creato e in elaborazione"@
}

/// Submits the job of a request. The caller has read the input: its size,
/// its format and its original name. Returns the identifier of the job, for
/// the caller to store the input and to dispatch the job. The job is refused
/// where the owner has reached their limit, where its expiry is no instant of
/// the calendar, or where its fresh identifier is already taken.
pub fn create_job(
    queue: &mut JobQueueInner,
    auth: &AuthInfo,
    query: &CreateJobRequest,
    file_size: i64,
    input_format: String,
    original_filename: Option<String>,
) -> (r: Result<JobCreatedResponse, AppError>)
    ensures
        final(queue).same_frame(*old(queue)),
        admission(old(queue).db@, auth.api_key_id.deep_view()) matches Err(e) ==> (r matches Err(
            err,
        ) && err@ == e),
        r is Err ==> final(queue).db@ == old(queue).db@ && final(queue).hub.history() == old(
            queue,
        ).hub.history(),
        r matches Err(err) ==> admission(old(queue).db@, auth.api_key_id.deep_view())
            == Err::<(), AppErrorView>(err@) || err@ == AppErrorView::BadRequest(
            invalid_expiry_text(),
        ) || err@ == AppErrorView::Internal(store_error_text(StoreError::DuplicateId)),
        admission(old(queue).db@, auth.api_key_id.deep_view()) is Ok && query.expires_in_hours
            is None && no_random_id_taken(old(queue).db@) ==> r is Ok,
        r matches Ok(created) ==> {
            &&& created.message@ == job_created_text()
            &&& JobId::parsed(created.id@) matches Some(id)
            &&& created.id@ == id.text()
            &&& !has_job(old(queue).db@.jobs, created.id@)
            &&& exists|now: Timestamp|
                final(queue).db@.jobs.last().created_at == #[trigger] now.text()
            &&& final(queue).db@.jobs.len() == old(queue).db@.jobs.len() + 1
            &&& final(queue).db@.jobs.drop_last() == old(queue).db@.jobs
            &&& final(queue).db@.jobs.last() == pending_record(
                old(queue).temp_dir@,
                id,
                (JobRequestView {
                    conversion_type: query.conversion_type,
                    file_size,
                    input_format: input_format@,
                    output_format: query.output_format@,
                    quality: query.quality,
                    api_key_id: auth.api_key_id.deep_view(),
                    priority: Some(query.priority.text()),
                    webhook_url: query.webhook_url.deep_view(),
                    source_url: query.source_url.deep_view(),
                    expires_in_hours: query.expires_in_hours,
                    original_filename: original_filename.deep_view(),
                }),
                final(queue).db@.jobs.last().created_at,
                final(queue).db@.jobs.last().expires_at,
            )
            &&& final(queue).hub.history() == after_publish(
                old(queue).hub.history(),
                event_of(
                    id,
                    JobStatus::Pending,
                    0,
                    None,
                    final(queue).db@.jobs.last().created_at,
                ),
            )
        },
{
    let r = queue.create_job(
        query.conversion_type,
        file_size,
        input_format,
        query.output_format.clone(),
        query.quality,
        clone_opt(&auth.api_key_id),
        Some(query.priority.to_string()),
        clone_opt(&query.webhook_url),
        clone_opt(&query.source_url),
        query.expires_in_hours,
        original_filename,
    );
    match r {
        Ok(id) => {
            Ok(
                JobCreatedResponse {
                    id: id.to_string(),
                    message: "Job creato e in elaborazione".to_string(),
                },
            )
        },
        Err(e) => Err(e),
    }
}

} // verus!
