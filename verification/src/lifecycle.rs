//! What holds of every job through its lifecycle, proved from the contracts of
//! the table, the engine and the progress stream.

use vstd::prelude::*;
use crate::clock::Timestamp;
use crate::db::jobs::{
    after_status_update, cancel_message, distinct_ids, has_job, job_index, job_limit_of, job_of,
    lemma_create_keeps_distinct, lemma_has_job, lemma_job_index, lemma_update_keeps_index,
    owner_active_count, JobRecordView, JobStoreView,
};
use crate::error::{AppError, AppErrorView};
use crate::ident::JobId;
use crate::models::job::{JobStatus, ProgressUpdateView};
use crate::routes::jobs::crud::{
    cancel_step, retries_exhausted_text, retry_refusal, retry_step, MAX_RETRIES, RetryAccepted,
};
use crate::routes::jobs::stream::{poll_of, JobProgressStreamView, StreamPollView};
use crate::services::progress::ProgressHub;
use crate::services::queue::{
    admission, after_publish, can_finish, can_start, dispatch_step, event_of, limit_reached_text,
    pending_record, submission, DispatchActionView, DispatchEventView, JobQueueInner,
    JobRequestView,
};

verus! {

/// Whether every record of a table is one that the lifecycle can produce.
pub open spec fn all_valid(jobs: Seq<JobRecordView>) -> bool {
    forall|k: int| 0 <= k < jobs.len() ==> (#[trigger] jobs[k]).is_valid()
}

/// Whether a table holds the same jobs as an earlier one, none of them with
/// less progress than before.
pub open spec fn never_goes_back(before: Seq<JobRecordView>, after: Seq<JobRecordView>) -> bool {
    &&& after.len() == before.len()
    &&& forall|k: int|
        0 <= k < before.len() ==> (#[trigger] after[k]).id == before[k].id && after[k].progress
            >= before[k].progress
}

/// A job is first stored as a record that the lifecycle can produce.
pub proof fn lemma_new_record_is_valid(
    temp_dir: Seq<char>,
    id: JobId,
    request: JobRequestView,
    now: Seq<char>,
    expires_at: Option<Seq<char>>,
)
    ensures
        pending_record(temp_dir, id, request, now, expires_at).is_valid(),
        pending_record(temp_dir, id, request, now, expires_at).job_status() == JobStatus::Pending,
{
    JobStatus::Pending.lemma_text_parses();
}

/// The five names of the statuses read back as the statuses.
pub proof fn lemma_status_names()
    ensures
        forall|s: JobStatus| #[trigger] JobStatus::parsed(s.text()) == Some(s),
{
    assert forall|s: JobStatus| #[trigger] JobStatus::parsed(s.text()) == Some(s) by {
        s.lemma_text_parses();
    }
}

/// Within an execution attempt progress never goes back: a status update that
/// the lifecycle accepts leaves a valid record valid and does not lower its
/// progress. The start and completion times are set at most once per attempt:
/// a progress report of a processing job changes neither.
pub proof fn lemma_update_keeps_progress(
    rec: JobRecordView,
    status: Seq<char>,
    progress: i64,
    message: Option<Seq<char>>,
    error: Option<Seq<char>>,
    result_path: Option<Seq<char>>,
    now: Seq<char>,
)
    requires
        rec.is_valid(),
        rec.accepts_update(status, progress, error, result_path),
    ensures
        rec.updated(status, progress, message, error, result_path, now).is_valid(),
        rec.updated(status, progress, message, error, result_path, now).progress >= rec.progress,
        rec.updated(status, progress, message, error, result_path, now).id == rec.id,
        rec.updated(status, progress, message, error, result_path, now).retry_count
            == rec.retry_count,
        rec.job_status() == JobStatus::Processing && JobStatus::parsed(status) == Some(
            JobStatus::Processing,
        ) ==> rec.updated(status, progress, message, error, result_path, now).started_at
            == rec.started_at && rec.updated(
            status,
            progress,
            message,
            error,
            result_path,
            now,
        ).completed_at == rec.completed_at,
{
    lemma_status_names();
}

/// A job reaches `completed` or `failed` only from `processing`.
pub proof fn lemma_only_processing_ends(
    rec: JobRecordView,
    status: Seq<char>,
    progress: i64,
    error: Option<Seq<char>>,
    result_path: Option<Seq<char>>,
)
    requires
        rec.accepts_update(status, progress, error, result_path),
        JobStatus::parsed(status) == Some(JobStatus::Completed) || JobStatus::parsed(status)
            == Some(JobStatus::Failed),
    ensures
        JobStatus::parsed(rec.status) == Some(JobStatus::Processing),
{
}

/// A job that has ended stays as it is: no status update and no cancellation
/// applies to a completed, failed or cancelled record, and only a failed one
/// can be reset for a retry.
pub proof fn lemma_terminal_is_final(
    rec: JobRecordView,
    status: Seq<char>,
    progress: i64,
    error: Option<Seq<char>>,
    result_path: Option<Seq<char>>,
)
    requires
        JobStatus::parsed(rec.status) matches Some(st) && st.is_terminal(),
    ensures
        !rec.accepts_update(status, progress, error, result_path),
        !rec.is_active(),
        rec.accepts_retry() ==> JobStatus::parsed(rec.status) == Some(JobStatus::Failed),
{
    lemma_status_names();
}

/// Cancelling keeps the progress of a job and leaves it terminal, without a
/// result.
pub proof fn lemma_cancel_ends_job(rec: JobRecordView, now: Seq<char>)
    requires
        rec.is_valid(),
        rec.is_active(),
    ensures
        rec.cancelled(now).is_valid(),
        rec.cancelled(now).job_status() == JobStatus::Cancelled,
        rec.cancelled(now).job_status().is_terminal(),
        rec.cancelled(now).progress == rec.progress,
        rec.cancelled(now).result_path is None,
        rec.cancelled(now).id == rec.id,
        rec.cancelled(now).retry_count == rec.retry_count,
        rec.cancelled(now).started_at == rec.started_at,
{
    lemma_status_names();
}

/// A retry puts a failed job back to `pending` with no progress and no error,
/// and counts exactly one more retry. Progress goes back in no other way.
pub proof fn lemma_retry_resets_job(rec: JobRecordView, now: Seq<char>)
    requires
        rec.is_valid(),
        rec.accepts_retry(),
    ensures
        rec.reset_for_retry(now).is_valid(),
        rec.reset_for_retry(now).job_status() == JobStatus::Pending,
        rec.reset_for_retry(now).progress == 0,
        rec.reset_for_retry(now).error is None,
        rec.reset_for_retry(now).started_at is None,
        rec.reset_for_retry(now).completed_at is None,
        rec.reset_for_retry(now).retries() == rec.retries() + 1,
        rec.reset_for_retry(now).id == rec.id,
{
    lemma_status_names();
}

/// A status update changes at most the record that it names, and lowers the
/// progress of no job.
pub proof fn lemma_status_update_keeps_progress(
    store: JobStoreView,
    id: Seq<char>,
    status: Seq<char>,
    progress: i64,
    message: Option<Seq<char>>,
    error: Option<Seq<char>>,
    result_path: Option<Seq<char>>,
    now: Seq<char>,
)
    requires
        all_valid(store.jobs),
    ensures
        all_valid(after_status_update(store, id, status, progress, message, error, result_path, now).jobs),
        never_goes_back(
            store.jobs,
            after_status_update(store, id, status, progress, message, error, result_path, now).jobs,
        ),
        forall|other: Seq<char>|
            job_index(
                after_status_update(
                    store,
                    id,
                    status,
                    progress,
                    message,
                    error,
                    result_path,
                    now,
                ).jobs,
                other,
            ) == #[trigger] job_index(store.jobs, other),
{
    let after = after_status_update(store, id, status, progress, message, error, result_path, now);
    let i = job_index(store.jobs, id);
    lemma_job_index(store.jobs, id);
    if i < store.jobs.len() && store.jobs[i].accepts_update(status, progress, error, result_path) {
        let rec = store.jobs[i];
        lemma_update_keeps_progress(rec, status, progress, message, error, result_path, now);
        assert forall|k: int| 0 <= k < after.jobs.len() implies (#[trigger] after.jobs[k]).is_valid() by {
            if k != i {
                assert(after.jobs[k] == store.jobs[k]);
            }
        }
        assert forall|other: Seq<char>|
            job_index(after.jobs, other) == #[trigger] job_index(store.jobs, other) by {
            lemma_update_keeps_index(
                store.jobs,
                i,
                rec.updated(status, progress, message, error, result_path, now),
                other,
            );
        }
    }
}

/// `never_goes_back` holds of a table and itself, and of the first and the
/// last of three tables where it holds of each two in turn.
pub proof fn lemma_never_goes_back_chain(
    a: Seq<JobRecordView>,
    b: Seq<JobRecordView>,
    c: Seq<JobRecordView>,
)
    ensures
        never_goes_back(a, a),
        never_goes_back(a, b) && never_goes_back(b, c) ==> never_goes_back(a, c),
{
    if never_goes_back(a, b) && never_goes_back(b, c) {
        assert forall|k: int| 0 <= k < a.len() implies (#[trigger] c[k]).id == a[k].id
            && c[k].progress >= a[k].progress by {
            assert(b[k].id == a[k].id);
            assert(c[k].id == b[k].id);
        }
    }
}

/// Within an execution attempt the progress of a job never goes back: no step
/// of the dispatch of any job lowers the progress of any stored job, and each
/// step leaves the records valid.
pub proof fn lemma_dispatch_keeps_progress(
    before: JobQueueInner,
    after: JobQueueInner,
    id: JobId,
    event: DispatchEventView,
    now: Seq<char>,
    action: DispatchActionView,
)
    requires
        all_valid(before.db@.jobs),
        dispatch_step(before, after, id, event, now, action),
    ensures
        all_valid(after.db@.jobs),
        never_goes_back(before.db@.jobs, after.db@.jobs),
{
    let s0 = before.db@;
    let p = JobStatus::Processing.text();
    lemma_never_goes_back_chain(s0.jobs, s0.jobs, s0.jobs);
    match event {
        DispatchEventView::Start => {
            if before.permits.in_use() < before.permits.capacity() && can_start(s0, id) {
                let m1 = Some(crate::models::job::starting_message());
                let m2 = Some(crate::services::queue::loading_message());
                let m3 = Some(crate::services::queue::converting_message());
                let s1 = after_status_update(s0, id.text(), p, 0, m1, None, None, now);
                let s2 = after_status_update(s1, id.text(), p, 10, m2, None, None, now);
                let s3 = after_status_update(s2, id.text(), p, 30, m3, None, None, now);
                lemma_status_update_keeps_progress(s0, id.text(), p, 0, m1, None, None, now);
                lemma_status_update_keeps_progress(s1, id.text(), p, 10, m2, None, None, now);
                lemma_status_update_keeps_progress(s2, id.text(), p, 30, m3, None, None, now);
                lemma_never_goes_back_chain(s0.jobs, s1.jobs, s2.jobs);
                lemma_never_goes_back_chain(s0.jobs, s2.jobs, s3.jobs);
                assert(after.db@ == s3);
            }
        },
        DispatchEventView::Converted(outcome) => {
            if can_finish(s0, id) {
                let m1 = Some(crate::services::queue::saving_message());
                let s1 = after_status_update(s0, id.text(), p, 80, m1, None, None, now);
                lemma_status_update_keeps_progress(s0, id.text(), p, 80, m1, None, None, now);
                match outcome {
                    crate::services::queue::ConversionOutcomeView::Converted(path) => {
                        let m2 = Some(crate::models::job::completed_message());
                        let c = JobStatus::Completed.text();
                        let s2 = after_status_update(s1, id.text(), c, 100, m2, None, Some(path), now);
                        lemma_status_update_keeps_progress(
                            s1,
                            id.text(),
                            c,
                            100,
                            m2,
                            None,
                            Some(path),
                            now,
                        );
                        lemma_never_goes_back_chain(s0.jobs, s1.jobs, s2.jobs);
                    },
                    crate::services::queue::ConversionOutcomeView::Failed(error) => {
                        let m2 = Some(crate::models::job::failure_message(error));
                        let f = JobStatus::Failed.text();
                        let s2 = after_status_update(s1, id.text(), f, 80, m2, Some(error), None, now);
                        lemma_status_update_keeps_progress(
                            s1,
                            id.text(),
                            f,
                            80,
                            m2,
                            Some(error),
                            None,
                            now,
                        );
                        lemma_never_goes_back_chain(s0.jobs, s1.jobs, s2.jobs);
                    },
                }
            }
        },
        DispatchEventView::Aborted => {},
    }
}

/// Cancelling lowers the progress of no job and leaves the records valid.
pub proof fn lemma_cancel_keeps_progress(
    before: JobQueueInner,
    after: JobQueueInner,
    id: Seq<char>,
    now: Seq<char>,
    r: Result<(), AppError>,
)
    requires
        all_valid(before.db@.jobs),
        cancel_step(before, after, id, now, r),
    ensures
        all_valid(after.db@.jobs),
        never_goes_back(before.db@.jobs, after.db@.jobs),
{
    let jobs = before.db@.jobs;
    let i = job_index(jobs, id);
    lemma_job_index(jobs, id);
    lemma_never_goes_back_chain(jobs, jobs, jobs);
    if JobId::parsed(id) is Some && i < jobs.len() && jobs[i].is_active() {
        lemma_cancel_ends_job(jobs[i], now);
        let out = after.db@.jobs;
        assert(out == jobs.update(i, jobs[i].cancelled(now)));
        assert forall|k: int| 0 <= k < out.len() implies (#[trigger] out[k]).is_valid() by {
            if k != i {
                assert(out[k] == jobs[k]);
            }
        }
    }
}

/// A retry leaves the records valid and touches no job but the retried one,
/// whose progress starts again from zero.
pub proof fn lemma_retry_touches_one(
    before: JobQueueInner,
    after: JobQueueInner,
    id: Seq<char>,
    now: Seq<char>,
    r: Result<RetryAccepted, AppError>,
)
    requires
        all_valid(before.db@.jobs),
        retry_step(before, after, id, now, r),
    ensures
        all_valid(after.db@.jobs),
        after.db@.jobs.len() == before.db@.jobs.len(),
        forall|k: int|
            0 <= k < before.db@.jobs.len() && k != job_index(before.db@.jobs, id) ==> (
            #[trigger] after.db@.jobs[k]) == before.db@.jobs[k],
        after.db@ != before.db@ ==> after.db@.jobs[job_index(before.db@.jobs, id)].progress == 0,
{
    let jobs = before.db@.jobs;
    let i = job_index(jobs, id);
    lemma_job_index(jobs, id);
    if JobId::parsed(id) is Some && i < jobs.len() && retry_refusal(jobs[i]) is None {
        lemma_status_names();
        lemma_retry_resets_job(jobs[i], now);
        let out = after.db@.jobs;
        assert(out == jobs.update(i, jobs[i].reset_for_retry(now)));
        assert forall|k: int| 0 <= k < out.len() implies (#[trigger] out[k]).is_valid() by {
            if k != i {
                assert(out[k] == jobs[k]);
            }
        }
    }
}

/// Submitting a job leaves the records valid and the stored jobs as they
/// were.
pub proof fn lemma_submit_keeps_valid(
    temp_dir: Seq<char>,
    store: JobStoreView,
    id: JobId,
    request: JobRequestView,
    now: Timestamp,
)
    requires
        all_valid(store.jobs),
        submission(temp_dir, store, id, request, now) is Ok,
    ensures
        all_valid(store.jobs.push(submission(temp_dir, store, id, request, now)->Ok_0)),
        submission(temp_dir, store, id, request, now)->Ok_0.job_status() == JobStatus::Pending,
        submission(temp_dir, store, id, request, now)->Ok_0.progress == 0,
        submission(temp_dir, store, id, request, now)->Ok_0.result_path is None,
{
    let rec = submission(temp_dir, store, id, request, now)->Ok_0;
    lemma_new_record_is_valid(temp_dir, id, request, now.text(), rec.expires_at);
    let out = store.jobs.push(rec);
    assert forall|k: int| 0 <= k < out.len() implies (#[trigger] out[k]).is_valid() by {
        if k < store.jobs.len() {
            assert(out[k] == store.jobs[k]);
        }
    }
}

/// A job that has completed or failed is not moved by the dispatcher again:
/// whatever the dispatcher is told of it, its record stays as it is. Only a
/// retry, and only of a failed job, moves it.
pub proof fn lemma_dispatch_leaves_ended_jobs(
    before: JobQueueInner,
    after: JobQueueInner,
    id: JobId,
    event: DispatchEventView,
    now: Seq<char>,
    action: DispatchActionView,
)
    requires
        dispatch_step(before, after, id, event, now, action),
        job_of(before.db@.jobs, id.text()) matches Some(rec) && (JobStatus::parsed(
            rec.status,
        ) matches Some(st) && st.is_terminal()),
    ensures
        after.db@ == before.db@,
        after.hub.history() == before.hub.history(),
        !(action is Convert),
{
    let rec = job_of(before.db@.jobs, id.text())->0;
    lemma_terminal_is_final(rec, JobStatus::Processing.text(), 0, None, None);
    lemma_terminal_is_final(rec, JobStatus::Processing.text(), 80, None, None);
}

/// Cancelling a pending job leaves a terminal `cancelled` record without a
/// result, announces it at once, and keeps the job from ever being
/// dispatched: a later start finds nothing to convert and changes nothing.
pub proof fn lemma_cancel_before_dispatch(
    before: JobQueueInner,
    after: JobQueueInner,
    id: JobId,
    now: Seq<char>,
    r: Result<(), AppError>,
    later: JobQueueInner,
    at: Seq<char>,
    action: DispatchActionView,
)
    requires
        cancel_step(before, after, id.text(), now, r),
        job_of(before.db@.jobs, id.text()) matches Some(rec) && rec.is_valid() && rec.job_status()
            == JobStatus::Pending,
        JobId::parsed(id.text()) == Some(id),
        dispatch_step(after, later, id, DispatchEventView::Start, at, action),
    ensures
        r is Ok,
        job_of(after.db@.jobs, id.text()) matches Some(rec) && rec.job_status()
            == JobStatus::Cancelled && rec.result_path is None && rec.progress == 0,
        after.hub.history() == after_publish(
            before.hub.history(),
            event_of(id, JobStatus::Cancelled, 0, Some(cancel_message()), now),
        ),
        !(action is Convert),
        later.db@ == after.db@,
{
    lemma_status_names();
    let jobs = before.db@.jobs;
    let i = job_index(jobs, id.text());
    lemma_job_index(jobs, id.text());
    let rec = jobs[i];
    lemma_cancel_ends_job(rec, now);
    lemma_update_keeps_index(jobs, i, rec.cancelled(now), id.text());
    let rec2 = after.db@.jobs[i];
    assert(rec2 == rec.cancelled(now));
    lemma_terminal_is_final(rec2, JobStatus::Processing.text(), 0, None, None);
}

/// Retrying a failed job that has been retried fewer than three times counts
/// exactly one more retry, clears the error and puts the job back to
/// `pending`. A job that has been retried three times is refused and stays as
/// it is.
pub proof fn lemma_retry_counts_one(
    before: JobQueueInner,
    after: JobQueueInner,
    id: JobId,
    now: Seq<char>,
    r: Result<RetryAccepted, AppError>,
)
    requires
        retry_step(before, after, id.text(), now, r),
        job_of(before.db@.jobs, id.text()) matches Some(rec) && rec.is_valid() && rec.job_status()
            == JobStatus::Failed,
        JobId::parsed(id.text()) == Some(id),
    ensures
        job_of(before.db@.jobs, id.text())->0.retries() < MAX_RETRIES ==> {
            &&& r matches Ok(accepted)
            &&& accepted.job_id == id
            &&& accepted.retry_count == job_of(before.db@.jobs, id.text())->0.retries() + 1
            &&& job_of(after.db@.jobs, id.text()) matches Some(rec)
            &&& rec.retries() == job_of(before.db@.jobs, id.text())->0.retries() + 1
            &&& rec.error is None
            &&& rec.progress == 0
            &&& rec.job_status() == JobStatus::Pending
        },
        job_of(before.db@.jobs, id.text())->0.retries() >= MAX_RETRIES ==> {
            &&& r matches Err(e)
            &&& e@ == AppErrorView::InvalidTransition(
                retries_exhausted_text(job_of(before.db@.jobs, id.text())->0.retries()),
            )
            &&& after.db@ == before.db@
        },
{
    lemma_status_names();
    let jobs = before.db@.jobs;
    let i = job_index(jobs, id.text());
    lemma_job_index(jobs, id.text());
    let rec = jobs[i];
    if rec.retries() < MAX_RETRIES {
        assert(retry_refusal(rec) is None);
        lemma_retry_resets_job(rec, now);
        lemma_update_keeps_index(jobs, i, rec.reset_for_retry(now), id.text());
        assert(after.db@.jobs[i] == rec.reset_for_retry(now));
    }
}

/// Replacing an active job of an owner by a record that is not active lowers
/// the owner's count of active jobs by exactly one.
pub proof fn lemma_ending_lowers_count(
    jobs: Seq<JobRecordView>,
    k: int,
    ended: JobRecordView,
    owner: Seq<char>,
)
    requires
        0 <= k < jobs.len(),
        jobs[k].api_key_id == Some(owner),
        jobs[k].is_active(),
        !ended.is_active(),
    ensures
        owner_active_count(jobs.update(k, ended), owner) == owner_active_count(jobs, owner) - 1,
        owner_active_count(jobs, owner) >= 1,
    decreases jobs.len(),
{
    let after = jobs.update(k, ended);
    if k == jobs.len() - 1 {
        assert(after.drop_last() =~= jobs.drop_last());
        lemma_count_not_negative(jobs.drop_last(), owner);
    } else {
        assert(after.drop_last() =~= jobs.drop_last().update(k, ended));
        lemma_ending_lowers_count(jobs.drop_last(), k, ended, owner);
    }
}

/// An owner has no fewer than zero active jobs.
pub proof fn lemma_count_not_negative(jobs: Seq<JobRecordView>, owner: Seq<char>)
    ensures
        owner_active_count(jobs, owner) >= 0,
    decreases jobs.len(),
{
    if jobs.len() > 0 {
        lemma_count_not_negative(jobs.drop_last(), owner);
    }
}

/// Admission is refused once as many jobs of an owner are pending or
/// processing as the owner's limit allows, and succeeds as soon as one of
/// those jobs has ended.
pub proof fn lemma_admission_follows_count(
    store: JobStoreView,
    owner: Seq<char>,
    limit: i64,
    k: int,
    ended: JobRecordView,
)
    requires
        job_limit_of(store.api_keys, owner) == Some(limit),
        owner_active_count(store.jobs, owner) == limit,
        0 <= k < store.jobs.len(),
        store.jobs[k].api_key_id == Some(owner),
        store.jobs[k].is_active(),
        !ended.is_active(),
    ensures
        admission(store, Some(owner)) == Err::<(), AppErrorView>(
            AppErrorView::TooManyJobs(limit_reached_text(limit as int, limit as int)),
        ),
        admission(JobStoreView { jobs: store.jobs.update(k, ended), ..store }, Some(owner)) is Ok,
{
    lemma_ending_lowers_count(store.jobs, k, ended, owner);
}

/// Submitting a job keeps the identifiers of the table distinct: a job is
/// stored only under an identifier that is not taken.
pub proof fn lemma_submit_keeps_distinct(
    temp_dir: Seq<char>,
    store: JobStoreView,
    id: JobId,
    request: JobRequestView,
    now: Timestamp,
)
    requires
        distinct_ids(store.jobs),
        submission(temp_dir, store, id, request, now) is Ok,
    ensures
        distinct_ids(store.jobs.push(submission(temp_dir, store, id, request, now)->Ok_0)),
        has_job(store.jobs.push(submission(temp_dir, store, id, request, now)->Ok_0), id.text()),
{
    let rec = submission(temp_dir, store, id, request, now)->Ok_0;
    lemma_create_keeps_distinct(store.jobs, rec);
    let out = store.jobs.push(rec);
    assert(out[store.jobs.len() as int].id == id.text());
    lemma_has_job(out, id.text());
}

/// An owner who had reached their limit is accepted again as soon as one of
/// their jobs has ended: a job without an expiry that they then submit under
/// an identifier that is not taken is stored as pending under their key.
pub proof fn lemma_accepted_after_ending(
    temp_dir: Seq<char>,
    store: JobStoreView,
    owner: Seq<char>,
    limit: i64,
    k: int,
    ended: JobRecordView,
    id: JobId,
    request: JobRequestView,
    now: Timestamp,
)
    requires
        job_limit_of(store.api_keys, owner) == Some(limit),
        owner_active_count(store.jobs, owner) == limit,
        0 <= k < store.jobs.len(),
        store.jobs[k].api_key_id == Some(owner),
        store.jobs[k].is_active(),
        !ended.is_active(),
        request.api_key_id == Some(owner),
        request.expires_in_hours is None,
        !has_job(store.jobs.update(k, ended), id.text()),
    ensures
        submission(temp_dir, store, id, request, now) == Err::<JobRecordView, AppErrorView>(
            AppErrorView::TooManyJobs(limit_reached_text(limit as int, limit as int)),
        ),
        submission(
            temp_dir,
            JobStoreView { jobs: store.jobs.update(k, ended), ..store },
            id,
            request,
            now,
        ) matches Ok(rec) && rec.job_status() == JobStatus::Pending && rec.api_key_id == Some(
            owner,
        ) && rec.progress == 0 && rec.result_path is None,
{
    lemma_admission_follows_count(store, owner, limit, k, ended);
    lemma_status_names();
    JobStatus::Pending.lemma_text_parses();
}

/// After every step of the engine the oldest event that the hub keeps is
/// known from the history that the step gives: the hub keeps the newest
/// events, as many as its capacity, which no step changes. So a stream falls
/// behind exactly where its position is more than the capacity behind the
/// history.
pub proof fn lemma_oldest_follows_history(before: JobQueueInner, after: JobQueueInner, next: nat)
    requires
        after.same_frame(before),
    ensures
        after.hub.oldest() == ProgressHub::oldest_of(
            after.hub.history().len(),
            before.hub.capacity(),
        ),
        next < after.hub.oldest() <==> next + before.hub.capacity() < after.hub.history().len(),
{
}

/// A stream that was opened on a job replays the stored state of the job
/// before anything else, whatever the hub holds and however late the stream
/// was opened. Where that state is terminal the stream ends with it.
pub proof fn lemma_stream_replays_first(
    stream: JobProgressStreamView,
    history: Seq<ProgressUpdateView>,
    oldest: nat,
)
    requires
        !stream.terminated,
        !stream.initial_sent,
        stream.initial_update is Some,
    ensures
        poll_of(stream, history, oldest).1 == StreamPollView::Event(stream.initial_update->0),
        poll_of(stream, history, oldest).0.initial_sent,
        stream.initial_update->0.status.is_terminal() ==> poll_of(
            poll_of(stream, history, oldest).0,
            history,
            oldest,
        ).1 == StreamPollView::Finished,
        !stream.initial_update->0.status.is_terminal() ==> poll_of(stream, history, oldest).0.next
            == stream.next,
{
}

/// A stream yields the events of its job in the order of the hub and skips
/// none that the hub still keeps: the event that it yields is the first event
/// of its job from its position on.
pub proof fn lemma_stream_skips_nothing(
    stream: JobProgressStreamView,
    history: Seq<ProgressUpdateView>,
    oldest: nat,
    j: int,
)
    requires
        !stream.terminated,
        stream.initial_sent,
        oldest <= stream.next,
        stream.next <= j < history.len() <= u64::MAX,
        history[j].job_id == stream.job_id,
    ensures
        poll_of(stream, history, oldest).1 matches StreamPollView::Event(u) && exists|k: int|
            stream.next <= k <= j && history[k] == u && poll_of(stream, history, oldest).0.next == k
                + 1,
        poll_of(stream, history, oldest).0.next <= j + 1,
{
    crate::routes::jobs::stream::lemma_next_match(history, stream.next as int, stream.job_id);
    let k = crate::routes::jobs::stream::next_match(history, stream.next as int, stream.job_id);
    if k > j {
        assert(history[j].job_id != stream.job_id);
    }
    assert(stream.next <= k <= j && history[k] == poll_of(stream, history, oldest).1->Event_0);
}

/// A stream ends with the first terminal event of its job and yields nothing
/// after it.
pub proof fn lemma_stream_ends_with_terminal(
    stream: JobProgressStreamView,
    history: Seq<ProgressUpdateView>,
    oldest: nat,
    later: Seq<ProgressUpdateView>,
    later_oldest: nat,
)
    requires
        poll_of(stream, history, oldest).1 matches StreamPollView::Event(u) && u.status.is_terminal(),
    ensures
        poll_of(poll_of(stream, history, oldest).0, later, later_oldest).1
            == StreamPollView::Finished,
{
}

} // verus!
