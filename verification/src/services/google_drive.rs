//! What the external storage is asked: the search for the export folder, the
//! body of an upload, and the content type of the uploaded file.

use vstd::prelude::*;
use crate::clock::Timestamp;
use crate::db::oauth_users::{is_token_expired, token_expired, OAuthTokens};
use vstd::utf8::encode_utf8;
use crate::text::{
    chars_of, decimal, glue, glue3, lowercase, replace_all, replaced, str_eq, string_from_chars,
    to_lowercase, u64_to_string,
};

verus! {

/// Where the files of the storage are read and changed.
pub const DRIVE_API_BASE: &'static str = "https://www.googleapis.com/drive/v3";

/// Where files are uploaded to the storage.
pub const DRIVE_UPLOAD_BASE: &'static str = "https://www.googleapis.com/upload/drive/v3";

/// What separates the parts of an upload.
pub const UPLOAD_BOUNDARY: &'static str = "converty_upload_boundary";

/// Why a request to the storage failed.
#[derive(Debug)]
pub enum DriveError {
    NoTokens,
    TokenExpired,
    RefreshFailed(String),
    ApiFailed(String),
    UploadFailed(String),
}

/// What a `DriveError` holds.
pub enum DriveErrorView {
    NoTokens,
    TokenExpired,
    RefreshFailed(Seq<char>),
    ApiFailed(Seq<char>),
    UploadFailed(Seq<char>),
}

impl View for DriveError {
    type V = DriveErrorView;

    open spec fn view(&self) -> DriveErrorView {
        match self {
            DriveError::NoTokens => DriveErrorView::NoTokens,
            DriveError::TokenExpired => DriveErrorView::TokenExpired,
            DriveError::RefreshFailed(s) => DriveErrorView::RefreshFailed(s@),
            DriveError::ApiFailed(s) => DriveErrorView::ApiFailed(s@),
            DriveError::UploadFailed(s) => DriveErrorView::UploadFailed(s@),
        }
    }
}

impl DriveErrorView {
    /// The text of the error.
    pub open spec fn message(self) -> Seq<char> {
        match self {
            DriveErrorView::NoTokens => "No OAuth tokens available"@,
            DriveErrorView::TokenExpired => "OAuth token expired and refresh failed"@,
            DriveErrorView::RefreshFailed(s) => "Token refresh failed: "@ + s,
            DriveErrorView::ApiFailed(s) => "Drive API failed: "@ + s,
            DriveErrorView::UploadFailed(s) => "Upload failed: "@ + s,
        }
    }
}

impl DriveError {
    /// The text of the error.
    pub fn to_string(&self) -> (r: String)
        ensures
            r@ == self@.message(),
    {
        match self {
            DriveError::NoTokens => "No OAuth tokens available".to_string(),
            DriveError::TokenExpired => "OAuth token expired and refresh failed".to_string(),
            DriveError::RefreshFailed(s) => glue("Token refresh failed: ", s.as_str()),
            DriveError::ApiFailed(s) => glue("Drive API failed: ", s.as_str()),
            DriveError::UploadFailed(s) => glue("Upload failed: ", s.as_str()),
        }
    }
}

/// A file of the storage.
#[derive(Debug)]
pub struct DriveFile {
    pub id: String,
    pub name: String,
    pub web_view_link: Option<String>,
}

/// Whether a byte stands for itself in a percent-encoded text: a letter or a
/// digit of ASCII, or one of `-`, `.`, `_` and `~`.
pub open spec fn is_unreserved(b: u8) -> bool {
    (0x30 <= b <= 0x39) || (0x41 <= b <= 0x5a) || (0x61 <= b <= 0x7a) || b == 0x2d || b == 0x2e
        || b == 0x5f || b == 0x7e
}

/// The uppercase hexadecimal digit of a value below sixteen.
pub open spec fn upper_hex(d: u8) -> char {
    if d < 10 {
        (0x30 + d) as char
    } else {
        (0x41 + d - 10) as char
    }
}

/// The percent-encoding of bytes: a byte that stands for itself is kept,
/// every other byte is written as `%` and its two uppercase hexadecimal digits.
pub open spec fn percent_encoded(bytes: Seq<u8>) -> Seq<char>
    decreases bytes.len(),
{
    if bytes.len() == 0 {
        Seq::empty()
    } else if is_unreserved(bytes[0]) {
        seq![bytes[0] as char] + percent_encoded(bytes.drop_first())
    } else {
        seq!['%', upper_hex(bytes[0] / 16), upper_hex(bytes[0] % 16)] + percent_encoded(
            bytes.drop_first(),
        )
    }
}

/// Calls `urlencoding::encode`, which percent-encodes every byte of the UTF-8
/// form of a text but letters, digits and `-`, `.`, `_`, `~`.
#[verifier::external_body]
pub(crate) fn percent_encode(s: &str) -> (r: String)
    ensures
        r@ == percent_encoded(encode_utf8(s@)),
{
    urlencoding::encode(s).into_owned()
}

/// The search that finds the folders of a name that are not in the bin.
pub open spec fn folder_query(name: Seq<char>) -> Seq<char> {
    "name = '"@ + name
        + "' and mimeType = 'application/vnd.google-apps.folder' and trashed = false"@
}

/// The address that is fetched to find the folders of a name.
pub open spec fn folder_search_address(name: Seq<char>) -> Seq<char> {
    DRIVE_API_BASE@ + "/files?q="@ + percent_encoded(encode_utf8(folder_query(name)))
        + "&fields=files(id,name)"@
}

/// The address that is fetched to find the export folder.
pub fn folder_search_url(folder_name: &str) -> (r: String)
    ensures
        r@ == folder_search_address(folder_name@),
{
    let query: String = glue3(
        "name = '",
        folder_name,
        "' and mimeType = 'application/vnd.google-apps.folder' and trashed = false",
    );
    let mut url: String = glue(DRIVE_API_BASE, "/files?q=");
    url.append(percent_encode(query.as_str()).as_str());
    url.append("&fields=files(id,name)");
    url
}

/// The address to which a file is uploaded together with its description.
pub fn upload_url() -> (r: String)
    ensures
        r@ == DRIVE_UPLOAD_BASE@ + "/files?uploadType=multipart&fields=id,name,webViewLink"@,
{
    glue(DRIVE_UPLOAD_BASE, "/files?uploadType=multipart&fields=id,name,webViewLink")
}

/// The content type of an upload.
pub fn upload_content_type() -> (r: String)
    ensures
        r@ == "multipart/related; boundary="@ + UPLOAD_BOUNDARY@,
{
    glue("multipart/related; boundary=", UPLOAD_BOUNDARY)
}

/// The bytes of a text.
pub open spec fn bytes_of(s: Seq<char>) -> Seq<u8> {
    encode_utf8(s)
}

/// The body of an upload: the description of the file as JSON, then the bytes
/// of the file under its content type, each part after a line with the
/// boundary, and a closing line.
pub open spec fn upload_body_of(
    metadata_json: Seq<char>,
    mime_type: Seq<char>,
    data: Seq<u8>,
) -> Seq<u8> {
    bytes_of("--converty_upload_boundary\r\n"@) + bytes_of(
        "Content-Type: application/json; charset=UTF-8\r\n\r\n"@,
    ) + bytes_of(metadata_json) + bytes_of("\r\n"@) + bytes_of("--converty_upload_boundary\r\n"@)
        + bytes_of("Content-Type: "@) + bytes_of(mime_type) + bytes_of("\r\n\r\n"@) + data
        + bytes_of("\r\n"@) + bytes_of("--converty_upload_boundary--\r\n"@)
}

fn push_bytes(out: &mut Vec<u8>, bytes: &[u8])
    ensures
        final(out)@ == old(out)@ + bytes@,
{
    let mut i: usize = 0;
    while i < bytes.len()
        invariant
            i <= bytes.len(),
            out@ == old(out)@ + bytes@.take(i as int),
        decreases bytes.len() - i,
    {
        out.push(bytes[i]);
        assert(out@ =~= old(out)@ + bytes@.take(i + 1));
        i += 1;
    }
    assert(bytes@.take(i as int) =~= bytes@);
}

/// Frames the body of an upload.
pub fn upload_body(metadata_json: &str, mime_type: &str, data: &[u8]) -> (r: Vec<u8>)
    ensures
        r@ == upload_body_of(metadata_json@, mime_type@, data@),
{
    let mut body: Vec<u8> = Vec::new();
    push_bytes(&mut body, "--converty_upload_boundary\r\n".as_bytes());
    push_bytes(&mut body, "Content-Type: application/json; charset=UTF-8\r\n\r\n".as_bytes());
    push_bytes(&mut body, metadata_json.as_bytes());
    push_bytes(&mut body, "\r\n".as_bytes());
    push_bytes(&mut body, "--converty_upload_boundary\r\n".as_bytes());
    push_bytes(&mut body, "Content-Type: ".as_bytes());
    push_bytes(&mut body, mime_type.as_bytes());
    push_bytes(&mut body, "\r\n\r\n".as_bytes());
    push_bytes(&mut body, data);
    push_bytes(&mut body, "\r\n".as_bytes());
    push_bytes(&mut body, "--converty_upload_boundary--\r\n".as_bytes());
    assert(body@ =~= upload_body_of(metadata_json@, mime_type@, data@));
    body
}

/// The name under which a file is uploaded: the given name, else the name of
/// the file, else `converted_file`.
pub fn upload_name(filename: Option<&str>, file_name: Option<&str>) -> (r: String)
    ensures
        r@ == match filename {
            Some(n) => n@,
            None => match file_name {
                Some(n) => n@,
                None => "converted_file"@,
            },
        },
{
    match filename {
        Some(n) => n.to_string(),
        None => match file_name {
            Some(n) => n.to_string(),
            None => "converted_file".to_string(),
        },
    }
}

/// The content type of an upload with an extension given in lowercase.
pub open spec fn upload_mime_of(ext: Seq<char>) -> Seq<char> {
    if ext == "png"@ {
        "image/png"@
    } else if ext == "jpg"@ || ext == "jpeg"@ {
        "image/jpeg"@
    } else if ext == "gif"@ {
        "image/gif"@
    } else if ext == "webp"@ {
        "image/webp"@
    } else if ext == "pdf"@ {
        "application/pdf"@
    } else if ext == "zip"@ {
        "application/zip"@
    } else if ext == "txt"@ {
        "text/plain"@
    } else if ext == "html"@ {
        "text/html"@
    } else if ext == "mp3"@ {
        "audio/mpeg"@
    } else if ext == "wav"@ {
        "audio/wav"@
    } else if ext == "mp4"@ {
        "video/mp4"@
    } else if ext == "webm"@ {
        "video/webm"@
    } else if ext == "tiff"@ || ext == "tif"@ {
        "image/tiff"@
    } else if ext == "svg"@ {
        "image/svg+xml"@
    } else {
        "application/octet-stream"@
    }
}

/// The content type of an upload, by the extension of the file.
pub fn get_mime_type(ext: &str) -> (r: &'static str)
    ensures
        r@ == upload_mime_of(lowercase(ext@)),
{
    let lower = to_lowercase(ext);
    upload_mime_for(lower.as_str())
}

/// The content type of an upload, by the extension of the file given in
/// lowercase; that of arbitrary bytes for an extension that is not known.
pub fn upload_mime_for(e: &str) -> (r: &'static str)
    ensures
        r@ == upload_mime_of(e@),
{
    if str_eq(e, "png") {
        "image/png"
    } else if str_eq(e, "jpg") || str_eq(e, "jpeg") {
        "image/jpeg"
    } else if str_eq(e, "gif") {
        "image/gif"
    } else if str_eq(e, "webp") {
        "image/webp"
    } else if str_eq(e, "pdf") {
        "application/pdf"
    } else if str_eq(e, "zip") {
        "application/zip"
    } else if str_eq(e, "txt") {
        "text/plain"
    } else if str_eq(e, "html") {
        "text/html"
    } else if str_eq(e, "mp3") {
        "audio/mpeg"
    } else if str_eq(e, "wav") {
        "audio/wav"
    } else if str_eq(e, "mp4") {
        "video/mp4"
    } else if str_eq(e, "webm") {
        "video/webm"
    } else if str_eq(e, "tiff") || str_eq(e, "tif") {
        "image/tiff"
    } else if str_eq(e, "svg") {
        "image/svg+xml"
    } else {
        "application/octet-stream"
    }
}

/// The address of a thumbnail of the given size: the link of the storage with
/// its size of 220 replaced.
pub fn thumbnail_url(link: &str, size: u32) -> (r: String)
    ensures
        r@ == replaced(link@, "=s220"@, "=s"@ + decimal(size as int)),
{
    let v: Vec<char> = chars_of(link);
    let to: String = glue("=s", u64_to_string(size as u64).as_str());
    let out: Vec<char> = replace_all(&v, "=s220", to.as_str());
    string_from_chars(out.as_slice())
}

/// How a request to the storage gets its access token.
#[derive(Debug)]
pub enum TokenPlan {
    /// The stored access token is used.
    Use(String),
    /// A new access token is asked for with the refresh token.
    Refresh(String),
}

/// What a `TokenPlan` holds.
pub enum TokenPlanView {
    Use(Seq<char>),
    Refresh(Seq<char>),
}

impl View for TokenPlan {
    type V = TokenPlanView;

    open spec fn view(&self) -> TokenPlanView {
        match self {
            TokenPlan::Use(t) => TokenPlanView::Use(t@),
            TokenPlan::Refresh(t) => TokenPlanView::Refresh(t@),
        }
    }
}

/// The plan for the tokens of a user at the instant `now`: without tokens
/// there is none; an access token that has not expired is used; an expired
/// one is renewed with the refresh token, and without a refresh token the
/// user has to sign in again.
pub open spec fn token_plan(
    access_token: Seq<char>,
    refresh_token: Option<Seq<char>>,
    expires_at: Option<(i64, u32)>,
    now: (i64, u32),
) -> Result<TokenPlanView, DriveErrorView> {
    if !token_expired(expires_at, now) {
        Ok(TokenPlanView::Use(access_token))
    } else {
        match refresh_token {
            Some(t) => Ok(TokenPlanView::Refresh(t)),
            None => Err(DriveErrorView::TokenExpired),
        }
    }
}

/// Decides how a request to the storage gets its access token from the
/// tokens that are stored for the user.
pub fn get_valid_token(tokens: Option<OAuthTokens>, now: &Timestamp) -> (r: Result<
    TokenPlan,
    DriveError,
>)
    ensures
        match tokens {
            None => r matches Err(e) && e@ == DriveErrorView::NoTokens,
            Some(t) => match token_plan(
                t.access_token@,
                t.refresh_token.deep_view(),
                match t.expires_at {
                    Some(e) => Some((e.secs(), e.nanos())),
                    None => None,
                },
                (now.secs(), now.nanos()),
            ) {
                Ok(plan) => r matches Ok(p) && p@ == plan,
                Err(error) => r matches Err(e) && e@ == error,
            },
        },
{
    match tokens {
        None => Err(DriveError::NoTokens),
        Some(t) => {
            if !is_token_expired(&t, now) {
                return Ok(TokenPlan::Use(t.access_token));
            }
            match t.refresh_token {
                Some(refresh) => Ok(TokenPlan::Refresh(refresh)),
                None => Err(DriveError::TokenExpired),
            }
        },
    }
}

} // verus!
