//! The extension of a file that was fetched from an address.

use vstd::prelude::*;
use vstd::utf8::encode_utf8;
use crate::text::{
    after_last, all_alphanumeric, before_first, chars_of, find_after_last, find_first,
    lemma_first_index, lemma_last_index, lowercase, range_all_alphanumeric, str_eq,
    string_from_range, to_lowercase, trim_range, trimmed,
};

verus! {

/// The candidate extension of an address: what follows the last dot of its
/// last path segment, the query left out.
pub open spec fn url_suffix(url: Seq<char>) -> Seq<char> {
    after_last(before_first(after_last(url, '/'), '?'), '.')
}

/// The extension of an address: the candidate in lowercase, where it has at
/// most five bytes and only letters and digits.
pub open spec fn url_extension(url: Seq<char>) -> Option<Seq<char>> {
    let ext = url_suffix(url);
    if encode_utf8(ext).len() <= 5 && all_alphanumeric(ext) {
        Some(lowercase(ext))
    } else {
        None
    }
}

/// Reads the extension of a file from its address.
pub fn extract_extension_from_url(url: &str) -> (r: Option<String>)
    ensures
        r.deep_view() == url_extension(url@),
{
    let v: Vec<char> = chars_of(url);
    let n: usize = v.len();
    let start: usize = find_after_last(&v, 0, n, '/');
    let end: usize = find_first(&v, start, n, '?');
    let dot: usize = find_after_last(&v, start, end, '.');
    proof {
        assert(v@.subrange(0, n as int) =~= v@);
        lemma_last_index(v@, '/');
        let file = after_last(v@, '/');
        assert(file =~= v@.subrange(start as int, n as int));
        lemma_first_index(file, '?');
        let name = before_first(file, '?');
        assert(name =~= v@.subrange(start as int, end as int));
        lemma_last_index(name, '.');
        assert(after_last(name, '.') =~= v@.subrange(dot as int, end as int));
    }
    let ext: String = string_from_range(&v, dot, end);
    if ext.as_str().as_bytes().len() <= 5 && range_all_alphanumeric(&v, dot, end) {
        Some(to_lowercase(ext.as_str()))
    } else {
        None
    }
}

/// The media type of a content type: what stands before the first semicolon,
/// without the blanks around it.
pub open spec fn media_type(mime: Seq<char>) -> Seq<char> {
    trimmed(before_first(mime, ';'))
}

/// The extension of the files of a media type, for the types that are known.
pub open spec fn mime_extension(media: Seq<char>) -> Option<Seq<char>> {
    if media == "image/png"@ {
        Some("png"@)
    } else if media == "image/jpeg"@ {
        Some("jpg"@)
    } else if media == "image/gif"@ {
        Some("gif"@)
    } else if media == "image/webp"@ {
        Some("webp"@)
    } else if media == "image/svg+xml"@ {
        Some("svg"@)
    } else if media == "application/pdf"@ {
        Some("pdf"@)
    } else if media == "text/plain"@ {
        Some("txt"@)
    } else if media == "text/html"@ {
        Some("html"@)
    } else if media == "audio/mpeg"@ {
        Some("mp3"@)
    } else if media == "audio/wav"@ {
        Some("wav"@)
    } else if media == "video/mp4"@ {
        Some("mp4"@)
    } else if media == "video/webm"@ {
        Some("webm"@)
    } else {
        None
    }
}

/// The extension of the files of a content type.
pub fn extension_from_mime(mime: &str) -> (r: Option<String>)
    ensures
        r.deep_view() == mime_extension(media_type(mime@)),
{
    let v: Vec<char> = chars_of(mime);
    let end: usize = find_first(&v, 0, v.len(), ';');
    let (a, b) = trim_range(&v, 0, end);
    proof {
        assert(v@.subrange(0, v.len() as int) =~= v@);
        lemma_first_index(v@, ';');
    }
    let media: String = string_from_range(&v, a, b);
    let m: &str = media.as_str();
    let ext: &str = if str_eq(m, "image/png") {
        "png"
    } else if str_eq(m, "image/jpeg") {
        "jpg"
    } else if str_eq(m, "image/gif") {
        "gif"
    } else if str_eq(m, "image/webp") {
        "webp"
    } else if str_eq(m, "image/svg+xml") {
        "svg"
    } else if str_eq(m, "application/pdf") {
        "pdf"
    } else if str_eq(m, "text/plain") {
        "txt"
    } else if str_eq(m, "text/html") {
        "html"
    } else if str_eq(m, "audio/mpeg") {
        "mp3"
    } else if str_eq(m, "audio/wav") {
        "wav"
    } else if str_eq(m, "video/mp4") {
        "mp4"
    } else if str_eq(m, "video/webm") {
        "webm"
    } else {
        return None;
    };
    Some(ext.to_string())
}

/// The extension of a downloaded file: that of its address, else that of its
/// content type, else `bin`.
pub fn download_extension(url: &str, content_type: Option<&str>) -> (r: String)
    ensures
        r@ == match url_extension(url@) {
            Some(e) => e,
            None => match content_type {
                Some(c) => match mime_extension(media_type(c@)) {
                    Some(e) => e,
                    None => "bin"@,
                },
                None => "bin"@,
            },
        },
{
    match extract_extension_from_url(url) {
        Some(e) => e,
        None => {
            let from_type: Option<String> = match content_type {
                Some(c) => extension_from_mime(c),
                None => None,
            };
            match from_type {
                Some(e) => e,
                None => "bin".to_string(),
            }
        },
    }
}

} // verus!
