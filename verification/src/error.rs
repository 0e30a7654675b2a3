//! The errors that the library reports, their texts and their HTTP status.

use vstd::prelude::*;
use crate::text::{decimal, glue, glue3, u64_to_string};

verus! {

/// What an `AppError` holds, with texts as sequences of characters.
pub enum AppErrorView {
    NotFound(Seq<char>),
    UnsupportedFormat(Seq<char>),
    ConversionError(Seq<char>),
    FileTooLarge(u64),
    IoError(Seq<char>),
    ImageError(Seq<char>),
    MissingField(Seq<char>),
    JobNotFound(Seq<char>),
    JobNotCompleted,
    FfmpegError(Seq<char>),
    PopplerError(Seq<char>),
    Unauthorized(Seq<char>),
    Forbidden(Seq<char>),
    RateLimited(Seq<char>),
    DailyLimitExceeded(Seq<char>),
    TooManyJobs(Seq<char>),
    BadRequest(Seq<char>),
    InvalidTransition(Seq<char>),
    Internal(Seq<char>),
}

/// An error of the library. Each variant but `JobNotCompleted` carries the
/// detail that its text ends with.
#[derive(Debug)]
pub enum AppError {
    NotFound(String),
    UnsupportedFormat(String),
    ConversionError(String),
    FileTooLarge(u64),
    IoError(String),
    ImageError(String),
    MissingField(String),
    JobNotFound(String),
    JobNotCompleted,
    FfmpegError(String),
    PopplerError(String),
    Unauthorized(String),
    Forbidden(String),
    RateLimited(String),
    DailyLimitExceeded(String),
    TooManyJobs(String),
    BadRequest(String),
    /// A request that the state of its job does not allow: retrying a job
    /// that has not failed or has used up its retries, cancelling a job that
    /// has ended.
    InvalidTransition(String),
    Internal(String),
}

impl View for AppError {
    type V = AppErrorView;

    open spec fn view(&self) -> AppErrorView {
        match self {
            AppError::NotFound(s) => AppErrorView::NotFound(s@),
            AppError::UnsupportedFormat(s) => AppErrorView::UnsupportedFormat(s@),
            AppError::ConversionError(s) => AppErrorView::ConversionError(s@),
            AppError::FileTooLarge(n) => AppErrorView::FileTooLarge(*n),
            AppError::IoError(s) => AppErrorView::IoError(s@),
            AppError::ImageError(s) => AppErrorView::ImageError(s@),
            AppError::MissingField(s) => AppErrorView::MissingField(s@),
            AppError::JobNotFound(s) => AppErrorView::JobNotFound(s@),
            AppError::JobNotCompleted => AppErrorView::JobNotCompleted,
            AppError::FfmpegError(s) => AppErrorView::FfmpegError(s@),
            AppError::PopplerError(s) => AppErrorView::PopplerError(s@),
            AppError::Unauthorized(s) => AppErrorView::Unauthorized(s@),
            AppError::Forbidden(s) => AppErrorView::Forbidden(s@),
            AppError::RateLimited(s) => AppErrorView::RateLimited(s@),
            AppError::DailyLimitExceeded(s) => AppErrorView::DailyLimitExceeded(s@),
            AppError::TooManyJobs(s) => AppErrorView::TooManyJobs(s@),
            AppError::BadRequest(s) => AppErrorView::BadRequest(s@),
            AppError::InvalidTransition(s) => AppErrorView::InvalidTransition(s@),
            AppError::Internal(s) => AppErrorView::Internal(s@),
        }
    }
}

impl AppErrorView {
    /// The text of the error.
    pub open spec fn message(self) -> Seq<char> {
        match self {
            AppErrorView::NotFound(s) => "File non trovato: "@ + s,
            AppErrorView::UnsupportedFormat(s) => "Formato non supportato: "@ + s,
            AppErrorView::ConversionError(s) => "Errore di conversione: "@ + s,
            AppErrorView::FileTooLarge(n) => "File troppo grande: massimo "@ + decimal(n as int)
                + " MB"@,
            AppErrorView::IoError(s) => "Errore di I/O: "@ + s,
            AppErrorView::ImageError(s) => "Errore immagine: "@ + s,
            AppErrorView::MissingField(s) => "Campo multipart mancante: "@ + s,
            AppErrorView::JobNotFound(s) => "Job non trovato: "@ + s,
            AppErrorView::JobNotCompleted => "Job non completato"@,
            AppErrorView::FfmpegError(s) => "FFmpeg non disponibile: "@ + s,
            AppErrorView::PopplerError(s) => "Poppler non disponibile: "@ + s,
            AppErrorView::Unauthorized(s) => "Non autorizzato: "@ + s,
            AppErrorView::Forbidden(s) => "Accesso negato: "@ + s,
            AppErrorView::RateLimited(s) => "Troppe richieste: "@ + s,
            AppErrorView::DailyLimitExceeded(s) => "Limite giornaliero raggiunto: "@ + s,
            AppErrorView::TooManyJobs(s) => "Troppi job in coda: "@ + s,
            AppErrorView::BadRequest(s) => "Richiesta non valida: "@ + s,
            AppErrorView::InvalidTransition(s) => "Richiesta non valida: "@ + s,
            AppErrorView::Internal(s) => "Errore interno: "@ + s,
        }
    }

    /// The HTTP status under which the error is reported.
    pub open spec fn status_code(self) -> u16 {
        match self {
            AppErrorView::NotFound(_) => 404,
            AppErrorView::UnsupportedFormat(_) => 400,
            AppErrorView::ConversionError(_) => 422,
            AppErrorView::FileTooLarge(_) => 413,
            AppErrorView::IoError(_) => 500,
            AppErrorView::ImageError(_) => 422,
            AppErrorView::MissingField(_) => 400,
            AppErrorView::JobNotFound(_) => 404,
            AppErrorView::JobNotCompleted => 202,
            AppErrorView::FfmpegError(_) => 503,
            AppErrorView::PopplerError(_) => 503,
            AppErrorView::Unauthorized(_) => 401,
            AppErrorView::Forbidden(_) => 403,
            AppErrorView::RateLimited(_) => 429,
            AppErrorView::DailyLimitExceeded(_) => 429,
            AppErrorView::TooManyJobs(_) => 429,
            AppErrorView::BadRequest(_) => 400,
            AppErrorView::InvalidTransition(_) => 400,
            AppErrorView::Internal(_) => 500,
        }
    }
}

impl AppError {
    /// The text of the error.
    pub fn to_string(&self) -> (r: String)
        ensures
            r@ == self@.message(),
    {
        match self {
            AppError::NotFound(s) => glue("File non trovato: ", s.as_str()),
            AppError::UnsupportedFormat(s) => glue("Formato non supportato: ", s.as_str()),
            AppError::ConversionError(s) => glue("Errore di conversione: ", s.as_str()),
            AppError::FileTooLarge(n) => glue3(
                "File troppo grande: massimo ",
                u64_to_string(*n).as_str(),
                " MB",
            ),
            AppError::IoError(s) => glue("Errore di I/O: ", s.as_str()),
            AppError::ImageError(s) => glue("Errore immagine: ", s.as_str()),
            AppError::MissingField(s) => glue("Campo multipart mancante: ", s.as_str()),
            AppError::JobNotFound(s) => glue("Job non trovato: ", s.as_str()),
            AppError::JobNotCompleted => "Job non completato".to_string(),
            AppError::FfmpegError(s) => glue("FFmpeg non disponibile: ", s.as_str()),
            AppError::PopplerError(s) => glue("Poppler non disponibile: ", s.as_str()),
            AppError::Unauthorized(s) => glue("Non autorizzato: ", s.as_str()),
            AppError::Forbidden(s) => glue("Accesso negato: ", s.as_str()),
            AppError::RateLimited(s) => glue("Troppe richieste: ", s.as_str()),
            AppError::DailyLimitExceeded(s) => glue("Limite giornaliero raggiunto: ", s.as_str()),
            AppError::TooManyJobs(s) => glue("Troppi job in coda: ", s.as_str()),
            AppError::BadRequest(s) => glue("Richiesta non valida: ", s.as_str()),
            AppError::InvalidTransition(s) => glue("Richiesta non valida: ", s.as_str()),
            AppError::Internal(s) => glue("Errore interno: ", s.as_str()),
        }
    }

    /// The HTTP status under which the error is reported.
    pub fn status_code(&self) -> (r: u16)
        ensures
            r == self@.status_code(),
    {
        match self {
            AppError::NotFound(_) => 404,
            AppError::UnsupportedFormat(_) => 400,
            AppError::ConversionError(_) => 422,
            AppError::FileTooLarge(_) => 413,
            AppError::IoError(_) => 500,
            AppError::ImageError(_) => 422,
            AppError::MissingField(_) => 400,
            AppError::JobNotFound(_) => 404,
            AppError::JobNotCompleted => 202,
            AppError::FfmpegError(_) => 503,
            AppError::PopplerError(_) => 503,
            AppError::Unauthorized(_) => 401,
            AppError::Forbidden(_) => 403,
            AppError::RateLimited(_) => 429,
            AppError::DailyLimitExceeded(_) => 429,
            AppError::TooManyJobs(_) => 429,
            AppError::BadRequest(_) => 400,
            AppError::InvalidTransition(_) => 400,
            AppError::Internal(_) => 500,
        }
    }
}

/// What the persistence layer reports for a refused operation.
pub open spec fn store_error_text(e: crate::db::jobs::StoreError) -> Seq<char> {
    match e {
        crate::db::jobs::StoreError::DuplicateId => "UNIQUE constraint failed: jobs.id"@,
        crate::db::jobs::StoreError::RowNotFound =>
            "no rows returned by a query that expected to return at least one row"@,
        crate::db::jobs::StoreError::TimeOutOfRange => "timestamp out of range"@,
    }
}

/// The text of a refusal of the persistence layer.
pub fn store_error_message(e: crate::db::jobs::StoreError) -> (r: String)
    ensures
        r@ == store_error_text(e),
{
    match e {
        crate::db::jobs::StoreError::DuplicateId => "UNIQUE constraint failed: jobs.id".to_string(),
        crate::db::jobs::StoreError::RowNotFound =>
            "no rows returned by a query that expected to return at least one row".to_string(),
        crate::db::jobs::StoreError::TimeOutOfRange => "timestamp out of range".to_string(),
    }
}

} // verus!
