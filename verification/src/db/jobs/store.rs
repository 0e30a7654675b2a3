//! The operations that read and change single records of the table. Every
//! operation that changes a status checks the lifecycle first and leaves the
//! record alone when the change is not a transition of it.

use vstd::prelude::*;
use crate::clock::Timestamp;
use crate::models::job::JobStatus;
use crate::text::{clone_opt, opt_str_eq, str_eq};
use crate::db::jobs::unique::{
    distinct_ids, lemma_create_keeps_distinct, lemma_delete_keeps_distinct,
    lemma_updates_keep_distinct,
};
use crate::db::jobs::records::{
    active_count, has_job, job_index, job_limit_of, job_of, key_index, lemma_job_index,
    lemma_key_index,
    owner_active_count, timeout_error, timeout_message, DEFAULT_JOB_LIMIT, JobRecord,
    JobRecordView, JobStore, JobStoreView, StoreError,
};

verus! {

/// Stores a new record. A record whose identifier is already stored is
/// refused and the table stays as it is.
pub fn create_job(store: &mut JobStore, job: &JobRecord) -> (r: Result<(), StoreError>)
    ensures
        distinct_ids(old(store)@.jobs) ==> distinct_ids(final(store)@.jobs),
        has_job(old(store)@.jobs, job@.id) ==> r == Err::<(), StoreError>(StoreError::DuplicateId)
            && final(store)@ == old(store)@,
        !has_job(old(store)@.jobs, job@.id) ==> r is Ok && final(store)@.jobs == old(
            store,
        )@.jobs.push(job@) && final(store)@.api_keys == old(store)@.api_keys,
{
    proof {
        if distinct_ids(store@.jobs) {
            if !has_job(store@.jobs, job@.id) {
                lemma_create_keeps_distinct(store@.jobs, job@);
            }
        }
    }
    let i = store.position(job.id.as_str());
    if i < store.jobs.len() {
        return Err(StoreError::DuplicateId);
    }
    store.jobs.push(job.copy());
    assert(store@.jobs =~= old(store)@.jobs.push(job@));
    Ok(())
}

/// The record with the given identifier.
pub fn get_job(store: &JobStore, id: &str) -> (r: Option<JobRecord>)
    ensures
        r.deep_view() == job_of(store@.jobs, id@),
{
    let i = store.position(id);
    if i < store.jobs.len() {
        Some(store.jobs[i].copy())
    } else {
        None
    }
}

/// The table after the record at `i` was replaced.
pub open spec fn with_job(store: JobStoreView, i: int, record: JobRecordView) -> JobStoreView {
    JobStoreView { jobs: store.jobs.update(i, record), ..store }
}

/// What a status update leaves of the table: the record with the identifier is
/// updated where the update is a step of its lifecycle, and nothing changes
/// otherwise.
pub open spec fn after_status_update(
    store: JobStoreView,
    id: Seq<char>,
    status: Seq<char>,
    progress: i64,
    message: Option<Seq<char>>,
    error: Option<Seq<char>>,
    result_path: Option<Seq<char>>,
    now: Seq<char>,
) -> JobStoreView {
    let i = job_index(store.jobs, id);
    if i < store.jobs.len() && store.jobs[i].accepts_update(status, progress, error, result_path) {
        with_job(store, i, store.jobs[i].updated(status, progress, message, error, result_path, now))
    } else {
        store
    }
}

/// Whether a status update changes the table.
pub open spec fn status_update_applies(
    store: JobStoreView,
    id: Seq<char>,
    status: Seq<char>,
    progress: i64,
    error: Option<Seq<char>>,
    result_path: Option<Seq<char>>,
) -> bool {
    let i = job_index(store.jobs, id);
    i < store.jobs.len() && store.jobs[i].accepts_update(status, progress, error, result_path)
}

fn opt_owned(o: Option<&str>) -> (r: Option<String>)
    ensures
        r.deep_view() == o.deep_view(),
{
    match o {
        Some(s) => Some(s.to_string()),
        None => None,
    }
}

/// Moves a job to `processing`, `completed` or `failed`, or records the
/// progress of a processing job. Returns whether the record was changed: an
/// unknown identifier and a change that the lifecycle does not allow leave the
/// table as it is.
pub fn update_job_status(
    store: &mut JobStore,
    id: &str,
    status: &str,
    progress: i64,
    progress_message: Option<&str>,
    error: Option<&str>,
    result_path: Option<&str>,
    now: &Timestamp,
) -> (r: bool)
    ensures
        distinct_ids(old(store)@.jobs) ==> distinct_ids(final(store)@.jobs),
        r == status_update_applies(
            old(store)@,
            id@,
            status@,
            progress,
            error.deep_view(),
            result_path.deep_view(),
        ),
        final(store)@ == after_status_update(
            old(store)@,
            id@,
            status@,
            progress,
            progress_message.deep_view(),
            error.deep_view(),
            result_path.deep_view(),
            now.text(),
        ),
{
    proof {
        if distinct_ids(store@.jobs) {
            lemma_updates_keep_distinct(
                store@,
                id@,
                status@,
                progress,
                progress_message.deep_view(),
                error.deep_view(),
                result_path.deep_view(),
                None,
                now.text(),
            );
        }
    }
    let i = store.position(id);
    if i >= store.jobs.len() {
        return false;
    }
    if !store.jobs[i].accepts_update(status, progress, error, result_path) {
        return false;
    }
    let mut rec = store.jobs[i].copy();
    let entering = str_eq(status, "processing") && !str_eq(rec.status.as_str(), "processing");
    let finishing = str_eq(status, "completed") || str_eq(status, "failed");
    rec.status = status.to_string();
    rec.progress = progress;
    rec.progress_message = opt_owned(progress_message);
    rec.updated_at = now.to_rfc3339();
    if error.is_some() {
        rec.error = opt_owned(error);
    }
    if result_path.is_some() {
        rec.result_path = opt_owned(result_path);
    }
    if entering {
        rec.started_at = Some(now.to_rfc3339());
    }
    if finishing {
        rec.completed_at = Some(now.to_rfc3339());
    }
    store.jobs.set(i, rec);
    assert(store@.jobs =~= old(store)@.jobs.update(
        i as int,
        old(store)@.jobs[i as int].updated(
            status@,
            progress,
            progress_message.deep_view(),
            error.deep_view(),
            result_path.deep_view(),
            now.text(),
        ),
    ));
    true
}

/// Removes the record with the given identifier. Returns whether there was
/// one.
pub fn delete_job(store: &mut JobStore, id: &str) -> (r: bool)
    ensures
        distinct_ids(old(store)@.jobs) ==> distinct_ids(final(store)@.jobs),
        distinct_ids(old(store)@.jobs) ==> !has_job(final(store)@.jobs, id@),
        r == has_job(old(store)@.jobs, id@),
        r ==> final(store)@.jobs == old(store)@.jobs.remove(job_index(old(store)@.jobs, id@)),
        !r ==> final(store)@.jobs == old(store)@.jobs,
        final(store)@.api_keys == old(store)@.api_keys,
{
    proof {
        if distinct_ids(store@.jobs) {
            lemma_job_index(store@.jobs, id@);
            if has_job(store@.jobs, id@) {
                lemma_delete_keeps_distinct(store@.jobs, job_index(store@.jobs, id@));
            }
        }
    }
    let i = store.position(id);
    if i >= store.jobs.len() {
        assert(store@.jobs =~= old(store)@.jobs);
        return false;
    }
    store.jobs.remove(i);
    assert(store@.jobs =~= old(store)@.jobs.remove(i as int));
    true
}

/// How many jobs are pending or processing.
pub fn count_active_jobs(store: &JobStore) -> (r: usize)
    ensures
        r == active_count(store@.jobs),
{
    let mut n: usize = 0;
    let mut i: usize = 0;
    while i < store.jobs.len()
        invariant
            i <= store.jobs.len(),
            n <= i,
            n == active_count(store@.jobs.take(i as int)),
        decreases store.jobs.len() - i,
    {
        proof {
            assert(store@.jobs.take(i + 1).drop_last() =~= store@.jobs.take(i as int));
        }
        if store.jobs[i].is_active() {
            n += 1;
        }
        i += 1;
    }
    assert(store@.jobs.take(i as int) =~= store@.jobs);
    n
}

/// How many jobs of the owner are pending or processing.
pub fn count_user_active_jobs(store: &JobStore, api_key_id: &str) -> (r: usize)
    ensures
        r == owner_active_count(store@.jobs, api_key_id@),
{
    let mut n: usize = 0;
    let mut i: usize = 0;
    while i < store.jobs.len()
        invariant
            i <= store.jobs.len(),
            n <= i,
            n == owner_active_count(store@.jobs.take(i as int), api_key_id@),
        decreases store.jobs.len() - i,
    {
        proof {
            assert(store@.jobs.take(i + 1).drop_last() =~= store@.jobs.take(i as int));
        }
        if opt_str_eq(&store.jobs[i].api_key_id, api_key_id) && store.jobs[i].is_active() {
            n += 1;
        }
        i += 1;
    }
    assert(store@.jobs.take(i as int) =~= store@.jobs);
    n
}

/// How many jobs the owner may have active at once: the limit of the key, 5
/// where the key sets none. A key that is not stored has no limit to read.
pub fn get_user_job_limit(store: &JobStore, api_key_id: &str) -> (r: Result<i64, StoreError>)
    ensures
        match job_limit_of(store@.api_keys, api_key_id@) {
            Some(n) => r == Ok::<i64, StoreError>(n),
            None => r == Err::<i64, StoreError>(StoreError::RowNotFound),
        },
{
    let mut i: usize = 0;
    while i < store.api_keys.len() && !str_eq(store.api_keys[i].id.as_str(), api_key_id)
        invariant
            i <= store.api_keys.len(),
            forall|j: int| 0 <= j < i ==> (#[trigger] store@.api_keys[j]).id != api_key_id@,
        decreases store.api_keys.len() - i,
    {
        i += 1;
    }
    proof {
        lemma_key_index(store@.api_keys, api_key_id@);
        let k = key_index(store@.api_keys, api_key_id@);
        if k < i {
            assert(store@.api_keys[k].id == api_key_id@);
        }
        if i < k {
            assert(store@.api_keys[i as int].id == api_key_id@);
        }
    }
    if i < store.api_keys.len() {
        match store.api_keys[i].max_concurrent_jobs {
            Some(n) => Ok(n),
            None => Ok(DEFAULT_JOB_LIMIT),
        }
    } else {
        Err(StoreError::RowNotFound)
    }
}

/// What resetting a job for a retry leaves of the table.
pub open spec fn after_retry_reset(store: JobStoreView, id: Seq<char>, now: Seq<char>) -> JobStoreView {
    let i = job_index(store.jobs, id);
    if i < store.jobs.len() && store.jobs[i].accepts_retry() {
        with_job(store, i, store.jobs[i].reset_for_retry(now))
    } else {
        store
    }
}

/// Whether resetting a job for a retry changes the table.
pub open spec fn retry_reset_applies(store: JobStoreView, id: Seq<char>) -> bool {
    let i = job_index(store.jobs, id);
    i < store.jobs.len() && store.jobs[i].accepts_retry()
}

/// Puts a failed job back to `pending` and counts the retry. Returns whether
/// the record was changed: only a failed job is reset.
pub fn reset_job_for_retry(store: &mut JobStore, id: &str, now: &Timestamp) -> (r: bool)
    ensures
        distinct_ids(old(store)@.jobs) ==> distinct_ids(final(store)@.jobs),
        r == retry_reset_applies(old(store)@, id@),
        final(store)@ == after_retry_reset(old(store)@, id@, now.text()),
{
    proof {
        if distinct_ids(store@.jobs) {
            lemma_updates_keep_distinct(
                store@,
                id@,
                id@,
                0,
                None,
                None,
                None,
                None,
                now.text(),
            );
        }
    }
    let i = store.position(id);
    if i >= store.jobs.len() {
        return false;
    }
    if !str_eq(store.jobs[i].status.as_str(), "failed") {
        return false;
    }
    let count: i64 = match store.jobs[i].retry_count {
        Some(n) => n,
        None => 0,
    };
    if count == i64::MAX {
        return false;
    }
    let mut rec = store.jobs[i].copy();
    rec.status = "pending".to_string();
    rec.progress = 0;
    rec.progress_message = Some("In coda per retry...".to_string());
    rec.error = None;
    rec.started_at = None;
    rec.completed_at = None;
    rec.retry_count = Some(count + 1);
    rec.updated_at = now.to_rfc3339();
    store.jobs.set(i, rec);
    assert(store@.jobs =~= old(store)@.jobs.update(
        i as int,
        old(store)@.jobs[i as int].reset_for_retry(now.text()),
    ));
    true
}

/// What cancelling a job leaves of the table.
pub open spec fn after_cancel(store: JobStoreView, id: Seq<char>, now: Seq<char>) -> JobStoreView {
    let i = job_index(store.jobs, id);
    if i < store.jobs.len() && store.jobs[i].is_active() {
        with_job(store, i, store.jobs[i].cancelled(now))
    } else {
        store
    }
}

/// Whether cancelling a job changes the table.
pub open spec fn cancel_applies(store: JobStoreView, id: Seq<char>) -> bool {
    let i = job_index(store.jobs, id);
    i < store.jobs.len() && store.jobs[i].is_active()
}

/// Marks a pending or processing job as cancelled. Returns whether the record
/// was changed.
pub fn cancel_job(store: &mut JobStore, id: &str, now: &Timestamp) -> (r: bool)
    ensures
        distinct_ids(old(store)@.jobs) ==> distinct_ids(final(store)@.jobs),
        r == cancel_applies(old(store)@, id@),
        final(store)@ == after_cancel(old(store)@, id@, now.text()),
{
    proof {
        if distinct_ids(store@.jobs) {
            lemma_updates_keep_distinct(
                store@,
                id@,
                id@,
                0,
                None,
                None,
                None,
                None,
                now.text(),
            );
        }
    }
    let i = store.position(id);
    if i >= store.jobs.len() {
        return false;
    }
    if !store.jobs[i].is_active() {
        return false;
    }
    let mut rec = store.jobs[i].copy();
    rec.status = "cancelled".to_string();
    rec.progress_message = Some("Job cancellato dall'utente".to_string());
    rec.completed_at = Some(now.to_rfc3339());
    rec.updated_at = now.to_rfc3339();
    store.jobs.set(i, rec);
    assert(store@.jobs =~= old(store)@.jobs.update(
        i as int,
        old(store)@.jobs[i as int].cancelled(now.text()),
    ));
    true
}

/// Fails a processing job that ran out of time. Its progress stays where it
/// was.
pub fn mark_job_timed_out(store: &mut JobStore, id: &str, now: &Timestamp) -> (r: bool)
    ensures
        distinct_ids(old(store)@.jobs) ==> distinct_ids(final(store)@.jobs),
        r == (job_of(old(store)@.jobs, id@) matches Some(rec) && status_update_applies(
            old(store)@,
            id@,
            JobStatus::Failed.text(),
            rec.progress,
            Some(timeout_error()),
            None,
        )),
        job_of(old(store)@.jobs, id@) matches Some(rec) ==> final(store)@ == after_status_update(
            old(store)@,
            id@,
            JobStatus::Failed.text(),
            rec.progress,
            Some(timeout_message()),
            Some(timeout_error()),
            None,
            now.text(),
        ),
        job_of(old(store)@.jobs, id@) is None ==> final(store)@ == old(store)@,
{
    let i = store.position(id);
    if i >= store.jobs.len() {
        return false;
    }
    let progress: i64 = store.jobs[i].progress;
    update_job_status(
        store,
        id,
        "failed",
        progress,
        Some("Job timeout"),
        Some("Il job ha superato il tempo massimo di esecuzione"),
        None,
        now,
    )
}

/// The webhook address of a job, where the job is stored and has one.
pub fn get_job_webhook(store: &JobStore, id: &str) -> (r: Option<String>)
    ensures
        r.deep_view() == match job_of(store@.jobs, id@) {
            Some(rec) => rec.webhook_url,
            None => None,
        },
{
    let i = store.position(id);
    if i < store.jobs.len() {
        clone_opt(&store.jobs[i].webhook_url)
    } else {
        None
    }
}

/// How often a job was retried; 0 for a job that is not stored or counts none.
pub fn get_job_retry_count(store: &JobStore, id: &str) -> (r: i64)
    ensures
        r == match job_of(store@.jobs, id@) {
            Some(rec) => rec.retries(),
            None => 0,
        },
{
    let i = store.position(id);
    if i < store.jobs.len() {
        match store.jobs[i].retry_count {
            Some(n) => n,
            None => 0,
        }
    } else {
        0
    }
}

/// What setting or clearing the external artifact of a job leaves of the table.
pub open spec fn after_drive_file_change(
    store: JobStoreView,
    id: Seq<char>,
    drive_file_id: Option<Seq<char>>,
    now: Seq<char>,
) -> JobStoreView {
    let i = job_index(store.jobs, id);
    if i < store.jobs.len() {
        with_job(store, i, JobRecordView { drive_file_id, updated_at: now, ..store.jobs[i] })
    } else {
        store
    }
}

/// Records the external artifact that holds the result of a job. Returns
/// whether the job is stored.
pub fn update_job_drive_file_id(
    store: &mut JobStore,
    id: &str,
    drive_file_id: &str,
    now: &Timestamp,
) -> (r: bool)
    ensures
        distinct_ids(old(store)@.jobs) ==> distinct_ids(final(store)@.jobs),
        r == has_job(old(store)@.jobs, id@),
        final(store)@ == after_drive_file_change(
            old(store)@,
            id@,
            Some(drive_file_id@),
            now.text(),
        ),
{
    proof {
        if distinct_ids(store@.jobs) {
            lemma_updates_keep_distinct(
                store@,
                id@,
                id@,
                0,
                None,
                None,
                None,
                Some(drive_file_id@),
                now.text(),
            );
        }
    }
    let i = store.position(id);
    if i >= store.jobs.len() {
        return false;
    }
    let mut rec = store.jobs[i].copy();
    rec.drive_file_id = Some(drive_file_id.to_string());
    rec.updated_at = now.to_rfc3339();
    store.jobs.set(i, rec);
    assert(store@.jobs =~= after_drive_file_change(
        old(store)@,
        id@,
        Some(drive_file_id@),
        now.text(),
    ).jobs);
    true
}

/// Forgets the external artifact of a job. Returns whether the job is stored.
pub fn clear_job_drive_file_id(store: &mut JobStore, id: &str, now: &Timestamp) -> (r: bool)
    ensures
        distinct_ids(old(store)@.jobs) ==> distinct_ids(final(store)@.jobs),
        r == has_job(old(store)@.jobs, id@),
        final(store)@ == after_drive_file_change(old(store)@, id@, None, now.text()),
{
    proof {
        if distinct_ids(store@.jobs) {
            lemma_updates_keep_distinct(
                store@,
                id@,
                id@,
                0,
                None,
                None,
                None,
                None,
                now.text(),
            );
        }
    }
    let i = store.position(id);
    if i >= store.jobs.len() {
        return false;
    }
    let mut rec = store.jobs[i].copy();
    rec.drive_file_id = None;
    rec.updated_at = now.to_rfc3339();
    store.jobs.set(i, rec);
    assert(store@.jobs =~= after_drive_file_change(old(store)@, id@, None, now.text()).jobs);
    true
}

/// The external artifact that holds the result of a job.
pub fn get_job_drive_file_id(store: &JobStore, id: &str) -> (r: Option<String>)
    ensures
        r.deep_view() == match job_of(store@.jobs, id@) {
            Some(rec) => rec.drive_file_id,
            None => None,
        },
{
    let i = store.position(id);
    if i < store.jobs.len() {
        clone_opt(&store.jobs[i].drive_file_id)
    } else {
        None
    }
}

} // verus!
