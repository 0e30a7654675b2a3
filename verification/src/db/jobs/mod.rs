//! The job table: the records of all jobs and the operations that read and
//! change them.
//!
//! A record keeps the stored encoding of a job: the status is one of the five
//! lowercase names, instants are RFC 3339 texts.

pub mod records;
pub mod store;
pub mod sweep;
pub mod listing;
pub mod unique;

pub use self::records::{
    ApiKeyLimit, ApiKeyLimitView, DEFAULT_JOB_LIMIT, JobRecord, JobRecordView, JobStore,
    JobStoreView, StoreError, active_count, cancel_message, has_job, job_index, job_limit_of,
    job_of, key_index, lemma_job_index, lemma_job_index_is, lemma_key_index,
    lemma_update_keeps_index, owner_active_count, retry_message, timeout_error,
    timeout_message,
};
pub use self::store::{
    after_cancel, after_drive_file_change, after_retry_reset, after_status_update,
    cancel_applies, cancel_job, clear_job_drive_file_id, count_active_jobs,
    count_user_active_jobs, create_job, delete_job, get_job, get_job_drive_file_id,
    get_job_retry_count, get_job_webhook, get_user_job_limit, mark_job_timed_out,
    reset_job_for_retry, retry_reset_applies, status_update_applies, update_job_drive_file_id,
    update_job_status, with_job,
};
pub use self::sweep::{
    cleanup_old_jobs, cutoff_text, expired_before, files_of, get_expired_jobs,
    get_timed_out_jobs, ids_where, is_expired, is_stale, is_timed_out, lemma_without_stale_len,
    stale_files, timed_out_before, without_stale,
};
pub use self::listing::{
    insert_newest_first, page,
    JobsListResponse, JobsQuery, JobsQueryView, default_limit, dispatches_before,
    get_next_pending_job, get_user_jobs, has_pending, is_newest_first, is_next_pending,
    lemma_dispatch_order, lemma_newest_first, lemma_place_newest_first,
    lemma_records_where_same, list_jobs, newest_first, page_of, place_newest_first,
    owned_by, priority_rank, records_where,
};
pub use self::unique::{
    distinct_ids, lemma_cleanup_keeps_distinct, lemma_create_keeps_distinct,
    lemma_delete_keeps_distinct, lemma_has_job, lemma_update_keeps_distinct,
    lemma_updates_keep_distinct,
};
