//! File names and file sizes.

use vstd::prelude::*;
use crate::config::BYTES_PER_MB;
use crate::error::{AppError, AppErrorView};
use crate::paths::{extension, extension_of};
use crate::text::{lowercase, to_lowercase};

verus! {

/// The MIME type that `mime_guess` gives for a file name, the type of
/// arbitrary bytes where it knows none.
pub uninterp spec fn guessed_mime(filename: Seq<char>) -> Seq<char>;

/// Calls `mime_guess::from_path` and takes the first guess, or
/// `application/octet-stream` where there is none.
#[verifier::external_body]
fn guess_mime(filename: &str) -> (r: String)
    ensures
        r@ == guessed_mime(filename@),
{
    mime_guess::from_path(filename).first_or_octet_stream().to_string()
}

/// The extension of a file name, in lowercase.
pub fn get_extension(filename: &str) -> (r: Option<String>)
    ensures
        r.deep_view() == match extension_of(filename@) {
            Some(e) => Some(lowercase(e)),
            None => None,
        },
{
    match extension(filename) {
        Some(e) => Some(to_lowercase(e.as_str())),
        None => None,
    }
}

/// The MIME type of a file, guessed from its name.
pub fn get_mime_type(filename: &str) -> (r: String)
    ensures
        r@ == guessed_mime(filename@),
{
    guess_mime(filename)
}

/// Accepts a file of `size` bytes where it is no larger than `max_size_mb`
/// megabytes.
pub fn validate_file_size(size: u64, max_size_mb: u64) -> (r: Result<(), AppError>)
    ensures
        size <= max_size_mb * BYTES_PER_MB ==> r is Ok,
        size > max_size_mb * BYTES_PER_MB ==> (r matches Err(e) && e@
            == AppErrorView::FileTooLarge(max_size_mb)),
{
    let max_bytes: u128 = (max_size_mb as u128) * 1048576;
    if (size as u128) > max_bytes {
        return Err(AppError::FileTooLarge(max_size_mb));
    }
    Ok(())
}

} // verus!
