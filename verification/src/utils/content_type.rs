//! Content types of converted files.

use vstd::prelude::*;
use crate::text::{lowercase, str_eq, to_lowercase};

verus! {

/// The MIME type of a format given by its lowercase name; the type of
/// arbitrary bytes for a name that is not known.
pub open spec fn content_type_of(format: Seq<char>) -> Seq<char> {
    if format == "png"@ {
        "image/png"@
    } else if format == "jpg"@ || format == "jpeg"@ {
        "image/jpeg"@
    } else if format == "gif"@ {
        "image/gif"@
    } else if format == "webp"@ {
        "image/webp"@
    } else if format == "bmp"@ {
        "image/bmp"@
    } else if format == "tiff"@ || format == "tif"@ {
        "image/tiff"@
    } else if format == "ico"@ {
        "image/x-icon"@
    } else if format == "svg"@ {
        "image/svg+xml"@
    } else if format == "avif"@ {
        "image/avif"@
    } else if format == "pdf"@ {
        "application/pdf"@
    } else if format == "txt"@ {
        "text/plain"@
    } else if format == "html"@ || format == "htm"@ {
        "text/html"@
    } else if format == "css"@ {
        "text/css"@
    } else if format == "js"@ {
        "application/javascript"@
    } else if format == "json"@ {
        "application/json"@
    } else if format == "xml"@ {
        "application/xml"@
    } else if format == "zip"@ {
        "application/zip"@
    } else if format == "tar"@ {
        "application/x-tar"@
    } else if format == "gz"@ {
        "application/gzip"@
    } else if format == "rar"@ {
        "application/vnd.rar"@
    } else if format == "7z"@ {
        "application/x-7z-compressed"@
    } else if format == "mp3"@ {
        "audio/mpeg"@
    } else if format == "wav"@ {
        "audio/wav"@
    } else if format == "ogg"@ {
        "audio/ogg"@
    } else if format == "flac"@ {
        "audio/flac"@
    } else if format == "aac"@ {
        "audio/aac"@
    } else if format == "m4a"@ {
        "audio/mp4"@
    } else if format == "mp4"@ {
        "video/mp4"@
    } else if format == "webm"@ {
        "video/webm"@
    } else if format == "avi"@ {
        "video/x-msvideo"@
    } else if format == "mkv"@ {
        "video/x-matroska"@
    } else if format == "mov"@ {
        "video/quicktime"@
    } else {
        "application/octet-stream"@
    }
}

/// The MIME type of a format, whatever the case of its name.
pub fn get_content_type(format: &str) -> (r: &'static str)
    ensures
        r@ == content_type_of(lowercase(format@)),
{
    let lower = to_lowercase(format);
    content_type_for(lower.as_str())
}

/// The MIME type of a format whose name is given in lowercase; that of
/// arbitrary bytes for a name that is not known.
pub fn content_type_for(f: &str) -> (r: &'static str)
    ensures
        r@ == content_type_of(f@),
{
    if str_eq(f, "png") {
        "image/png"
    } else if str_eq(f, "jpg") || str_eq(f, "jpeg") {
        "image/jpeg"
    } else if str_eq(f, "gif") {
        "image/gif"
    } else if str_eq(f, "webp") {
        "image/webp"
    } else if str_eq(f, "bmp") {
        "image/bmp"
    } else if str_eq(f, "tiff") || str_eq(f, "tif") {
        "image/tiff"
    } else if str_eq(f, "ico") {
        "image/x-icon"
    } else if str_eq(f, "svg") {
        "image/svg+xml"
    } else if str_eq(f, "avif") {
        "image/avif"
    } else if str_eq(f, "pdf") {
        "application/pdf"
    } else if str_eq(f, "txt") {
        "text/plain"
    } else if str_eq(f, "html") || str_eq(f, "htm") {
        "text/html"
    } else if str_eq(f, "css") {
        "text/css"
    } else if str_eq(f, "js") {
        "application/javascript"
    } else if str_eq(f, "json") {
        "application/json"
    } else if str_eq(f, "xml") {
        "application/xml"
    } else if str_eq(f, "zip") {
        "application/zip"
    } else if str_eq(f, "tar") {
        "application/x-tar"
    } else if str_eq(f, "gz") {
        "application/gzip"
    } else if str_eq(f, "rar") {
        "application/vnd.rar"
    } else if str_eq(f, "7z") {
        "application/x-7z-compressed"
    } else if str_eq(f, "mp3") {
        "audio/mpeg"
    } else if str_eq(f, "wav") {
        "audio/wav"
    } else if str_eq(f, "ogg") {
        "audio/ogg"
    } else if str_eq(f, "flac") {
        "audio/flac"
    } else if str_eq(f, "aac") {
        "audio/aac"
    } else if str_eq(f, "m4a") {
        "audio/mp4"
    } else if str_eq(f, "mp4") {
        "video/mp4"
    } else if str_eq(f, "webm") {
        "video/webm"
    } else if str_eq(f, "avi") {
        "video/x-msvideo"
    } else if str_eq(f, "mkv") {
        "video/x-matroska"
    } else if str_eq(f, "mov") {
        "video/quicktime"
    } else {
        "application/octet-stream"
    }
}

} // verus!
