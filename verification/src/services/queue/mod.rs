//! The job engine and its dispatcher.

pub mod semaphore;
pub mod engine;
pub mod processor;

pub use self::semaphore::{
    MAX_CONCURRENT_JOBS, Semaphore,
};
pub use self::engine::{
    DeletedFiles, JobQueueInner, JobRequest, JobRequestView, admission, after_publish,
    create_job_queue, event_of, expiry_of, input_path_of, invalid_expiry_text, is_pending,
    is_processing, job_dir, job_from_record, job_from_record_with, job_view_of,
    limit_reached_text, no_random_id_taken, pending_record, percent, submission,
};
pub use self::processor::{
    ConversionOutcome, ConversionOutcomeView, ConversionPlan, ConversionPlanView,
    DispatchAction, DispatchActionView, DispatchEvent, DispatchEventView, DriveUpload,
    DriveUploadView, SideEffects, SideEffectsView, WebhookCall, WebhookCallView, after_finish,
    after_start, can_finish, can_start, converting_message, dispatch_step, effects_of,
    get_job_result, history_after_finish, history_after_start, is_pdf_job, loading_message,
    plan_of, process_job, process_job_at, released, saving_message,
};
