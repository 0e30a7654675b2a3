//! What the service answers.

use vstd::prelude::*;
use crate::error::AppError;
use crate::models::job::JobStatus;

verus! {

/// The state of the service.
#[derive(Debug)]
pub struct HealthResponse {
    pub status: String,
    pub version: String,
    /// Whether audio and video can be converted.
    pub ffmpeg_available: bool,
}

/// The formats of every kind of conversion.
#[derive(Debug)]
pub struct FormatsResponse {
    pub image: FormatSupport,
    pub svg: FormatSupport,
    pub document: FormatSupport,
    pub audio: FormatSupport,
    pub video: FormatSupport,
    pub pdf: FormatSupport,
    /// The largest accepted file, in megabytes.
    pub max_file_size_mb: u64,
}

/// The formats of one kind of conversion.
#[derive(Debug)]
pub struct FormatSupport {
    pub input: Vec<String>,
    pub output: Vec<String>,
    /// Whether the tools of the conversion are installed.
    pub available: bool,
}

/// The outcome of a direct conversion.
#[derive(Debug)]
pub struct ConvertResponse {
    pub success: bool,
    pub original_name: String,
    pub original_format: String,
    pub output_format: String,
    pub size_bytes: u64,
}

/// The outcome of a conversion of several files.
#[derive(Debug)]
pub struct BatchConvertResponse {
    pub success: bool,
    pub converted: Vec<ConvertedFile>,
    pub failed: Vec<FailedFile>,
}

/// A file that was converted.
#[derive(Debug)]
pub struct ConvertedFile {
    pub original_name: String,
    pub output_format: String,
    pub size_bytes: u64,
}

/// A file that could not be converted.
#[derive(Debug)]
pub struct FailedFile {
    pub original_name: String,
    pub error: String,
}

/// The state of a job, as a client sees it.
#[derive(Debug)]
pub struct JobResponse {
    pub id: String,
    pub status: JobStatus,
    pub conversion_type: String,
    pub input_format: String,
    pub output_format: String,
    pub created_at: String,
    pub completed_at: Option<String>,
    pub error: Option<String>,
}

/// What a `JobResponse` holds.
pub struct JobResponseView {
    pub id: Seq<char>,
    pub status: JobStatus,
    pub conversion_type: Seq<char>,
    pub input_format: Seq<char>,
    pub output_format: Seq<char>,
    pub created_at: Seq<char>,
    pub completed_at: Option<Seq<char>>,
    pub error: Option<Seq<char>>,
}

impl View for JobResponse {
    type V = JobResponseView;

    open spec fn view(&self) -> JobResponseView {
        JobResponseView {
            id: self.id@,
            status: self.status,
            conversion_type: self.conversion_type@,
            input_format: self.input_format@,
            output_format: self.output_format@,
            created_at: self.created_at@,
            completed_at: self.completed_at.deep_view(),
            error: self.error.deep_view(),
        }
    }
}

/// The answer to a submitted job.
#[derive(Debug)]
pub struct JobCreatedResponse {
    pub id: String,
    pub message: String,
}

/// The answer to a request that failed.
#[derive(Debug)]
pub struct ErrorResponse {
    pub error: String,
    pub status: u16,
}

impl ErrorResponse {
    /// The answer that reports an error: its text and its HTTP status.
    pub fn from_error(error: &AppError) -> (r: ErrorResponse)
        ensures
            r.error@ == error@.message(),
            r.status == error@.status_code(),
    {
        ErrorResponse { error: error.to_string(), status: error.status_code() }
    }
}

} // verus!
