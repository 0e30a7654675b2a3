//! What only administrators may ask for.

use vstd::prelude::*;
use crate::db::api_keys::ApiKeyRole;
use crate::error::{AppError, AppErrorView};
use crate::text::{decimal, glue, i64_to_string, u64_to_string};

verus! {

/// What a cleanup asks for.
#[derive(Debug)]
pub struct CleanupRequest {
    /// How many days of records to keep.
    pub days: i64,
}

/// How many days of records a cleanup keeps when the request names none.
pub fn default_cleanup_days() -> (r: i64)
    ensures
        r == 30,
{
    30
}

/// What a cleanup did.
#[derive(Debug)]
pub struct CleanupResponse {
    pub records_deleted: u64,
    pub message: String,
}

/// A plain confirmation.
#[derive(Debug)]
pub struct MessageResponse {
    pub message: String,
}

/// The text with which a request is refused that only an administrator may
/// make.
pub open spec fn admin_required_text() -> Seq<char> {
    "Questa operazione richiede privilegi admin"@
}

/// Lets an administrator pass.
pub fn require_admin(role: &ApiKeyRole) -> (r: Result<(), AppError>)
    ensures
        *role == ApiKeyRole::Admin ==> r is Ok,
        *role != ApiKeyRole::Admin ==> (r matches Err(e) && e@ == AppErrorView::Forbidden(
            admin_required_text(),
        )),
{
    match role {
        ApiKeyRole::Admin => Ok(()),
        ApiKeyRole::User => Err(
            AppError::Forbidden("Questa operazione richiede privilegi admin".to_string()),
        ),
    }
}

/// The text that reports a cleanup.
pub open spec fn cleanup_text(deleted: u64, days: i64) -> Seq<char> {
    "Eliminati "@ + decimal(deleted as int) + " record più vecchi di "@ + decimal(days as int)
        + " giorni"@
}

/// The report of a cleanup that deleted `deleted` records older than `days`
/// days.
pub fn cleanup_old_data(deleted: u64, days: i64) -> (r: CleanupResponse)
    ensures
        r.records_deleted == deleted,
        r.message@ == cleanup_text(deleted, days),
{
    let mut text = glue("Eliminati ", u64_to_string(deleted).as_str());
    text.append(" record più vecchi di ");
    text.append(i64_to_string(days).as_str());
    text.append(" giorni");
    CleanupResponse { records_deleted: deleted, message: text }
}

} // verus!
