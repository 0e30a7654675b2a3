//! The formats that each kind of conversion reads and writes.

use vstd::prelude::*;
use crate::text::{lowercase, str_eq, to_lowercase};

verus! {

/// Formats that the image conversion reads.
pub const IMAGE_INPUT: [&'static str; 15] = [
    "png",
    "jpg",
    "jpeg",
    "gif",
    "bmp",
    "webp",
    "tiff",
    "ico",
    "avif",
    "qoi",
    "pnm",
    "tga",
    "dds",
    "hdr",
    "exr",
];

/// Formats that the image conversion writes.
pub const IMAGE_OUTPUT: [&'static str; 9] = [
    "png",
    "jpg",
    "jpeg",
    "webp",
    "bmp",
    "gif",
    "avif",
    "qoi",
    "tiff",
];

/// Formats that the vector conversion reads.
pub const SVG_INPUT: [&'static str; 1] = ["svg"];

/// Formats that the vector conversion writes.
pub const SVG_OUTPUT: [&'static str; 8] = [
    "png",
    "jpg",
    "jpeg",
    "webp",
    "bmp",
    "gif",
    "avif",
    "qoi",
];

/// Formats that the document conversion reads.
pub const DOCUMENT_INPUT: [&'static str; 5] = ["txt", "md", "markdown", "html", "htm"];

/// Formats that the document conversion writes.
pub const DOCUMENT_OUTPUT: [&'static str; 3] = ["pdf", "txt", "html"];

/// Formats that the audio conversion reads.
pub const AUDIO_INPUT: [&'static str; 6] = ["mp3", "wav", "ogg", "flac", "aac", "m4a"];

/// Formats that the audio conversion writes.
pub const AUDIO_OUTPUT: [&'static str; 4] = ["mp3", "wav", "ogg", "flac"];

/// Formats that the video conversion reads.
pub const VIDEO_INPUT: [&'static str; 6] = ["mp4", "avi", "mkv", "mov", "webm", "wmv"];

/// Formats that the video conversion writes.
pub const VIDEO_OUTPUT: [&'static str; 4] = ["mp4", "webm", "avi", "gif"];

/// Formats that the PDF conversion reads.
pub const PDF_INPUT: [&'static str; 1] = ["pdf"];

/// Formats that the PDF conversion writes.
pub const PDF_OUTPUT: [&'static str; 4] = ["png", "jpg", "jpeg", "tiff"];

/// The texts of a list of names.
pub open spec fn names(list: Seq<&'static str>) -> Seq<Seq<char>> {
    list.map_values(|s: &'static str| s@)
}

/// Whether a list of names holds the text.
pub fn holds(list: &[&'static str], s: &str) -> (r: bool)
    ensures
        r == names(list@).contains(s@),
{
    let mut i: usize = 0;
    while i < list.len()
        invariant
            i <= list.len(),
            forall|j: int| 0 <= j < i ==> names(list@)[j] != s@,
        decreases list.len() - i,
    {
        if str_eq(list[i], s) {
            assert(names(list@)[i as int] == s@);
            return true;
        }
        i += 1;
    }
    false
}

/// Whether a list of names holds the lowercase form of the text.
pub open spec fn lists(list: Seq<&'static str>, ext: Seq<char>) -> bool {
    names(list).contains(lowercase(ext))
}

/// Whether the image conversion reads the format, whatever the case of its
/// name.
pub fn is_supported_image_input(ext: &str) -> (r: bool)
    ensures
        r == lists(IMAGE_INPUT@, ext@),
{
    holds(&IMAGE_INPUT, to_lowercase(ext).as_str())
}

/// Whether the vector conversion reads the format.
pub fn is_svg_input(ext: &str) -> (r: bool)
    ensures
        r == lists(SVG_INPUT@, ext@),
{
    holds(&SVG_INPUT, to_lowercase(ext).as_str())
}

/// Whether the vector conversion writes the format.
pub fn is_supported_svg_output(ext: &str) -> (r: bool)
    ensures
        r == lists(SVG_OUTPUT@, ext@),
{
    holds(&SVG_OUTPUT, to_lowercase(ext).as_str())
}

/// Whether the image conversion writes the format.
pub fn is_supported_image_output(ext: &str) -> (r: bool)
    ensures
        r == lists(IMAGE_OUTPUT@, ext@),
{
    holds(&IMAGE_OUTPUT, to_lowercase(ext).as_str())
}

/// Whether the document conversion reads the format.
pub fn is_supported_document_input(ext: &str) -> (r: bool)
    ensures
        r == lists(DOCUMENT_INPUT@, ext@),
{
    holds(&DOCUMENT_INPUT, to_lowercase(ext).as_str())
}

/// Whether the document conversion writes the format.
pub fn is_supported_document_output(ext: &str) -> (r: bool)
    ensures
        r == lists(DOCUMENT_OUTPUT@, ext@),
{
    holds(&DOCUMENT_OUTPUT, to_lowercase(ext).as_str())
}

/// Whether the audio conversion reads the format.
pub fn is_supported_audio_input(ext: &str) -> (r: bool)
    ensures
        r == lists(AUDIO_INPUT@, ext@),
{
    holds(&AUDIO_INPUT, to_lowercase(ext).as_str())
}

/// Whether the audio conversion writes the format.
pub fn is_supported_audio_output(ext: &str) -> (r: bool)
    ensures
        r == lists(AUDIO_OUTPUT@, ext@),
{
    holds(&AUDIO_OUTPUT, to_lowercase(ext).as_str())
}

/// Whether the video conversion reads the format.
pub fn is_supported_video_input(ext: &str) -> (r: bool)
    ensures
        r == lists(VIDEO_INPUT@, ext@),
{
    holds(&VIDEO_INPUT, to_lowercase(ext).as_str())
}

/// Whether the video conversion writes the format.
pub fn is_supported_video_output(ext: &str) -> (r: bool)
    ensures
        r == lists(VIDEO_OUTPUT@, ext@),
{
    holds(&VIDEO_OUTPUT, to_lowercase(ext).as_str())
}

/// Whether the PDF conversion reads the format.
pub fn is_pdf_input(ext: &str) -> (r: bool)
    ensures
        r == lists(PDF_INPUT@, ext@),
{
    holds(&PDF_INPUT, to_lowercase(ext).as_str())
}

/// Whether the PDF conversion writes the format.
pub fn is_supported_pdf_output(ext: &str) -> (r: bool)
    ensures
        r == lists(PDF_OUTPUT@, ext@),
{
    holds(&PDF_OUTPUT, to_lowercase(ext).as_str())
}

} // verus!
