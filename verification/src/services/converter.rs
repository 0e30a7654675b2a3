//! Which conversion a file takes, and how the result of a PDF is packaged.

use vstd::prelude::*;
use crate::config::formats::{
    is_pdf_input, is_supported_audio_input, is_supported_document_input, is_supported_image_input,
    is_supported_video_input, is_svg_input, lists, AUDIO_INPUT, DOCUMENT_INPUT, IMAGE_INPUT,
    PDF_INPUT, SVG_INPUT, VIDEO_INPUT,
};
use crate::models::request::ConversionType;
use crate::paths::{extension, extension_of, join, joined};
use crate::text::{glue, lowercase, to_lowercase};

verus! {

/// The converter that handles a file.
#[derive(Clone, Copy, Debug, PartialEq, Eq, Structural)]
pub enum ConversionRoute {
    Svg,
    Pdf,
    Image,
    Document,
    Audio,
    Video,
}

/// The converter for an input format and a requested category: a vector
/// image and a PDF go to their own converters whatever was requested, every
/// other file to the converter of the requested category.
pub open spec fn route_of(input_format: Seq<char>, conversion_type: ConversionType) -> ConversionRoute {
    if lists(SVG_INPUT@, input_format) {
        ConversionRoute::Svg
    } else if lists(PDF_INPUT@, input_format) {
        ConversionRoute::Pdf
    } else {
        match conversion_type {
            ConversionType::Image => ConversionRoute::Image,
            ConversionType::Document => ConversionRoute::Document,
            ConversionType::Audio => ConversionRoute::Audio,
            ConversionType::Video => ConversionRoute::Video,
            ConversionType::Pdf => ConversionRoute::Pdf,
        }
    }
}

/// Chooses the converter for data of the given format.
pub fn convert(input_format: &str, conversion_type: &ConversionType) -> (r: ConversionRoute)
    ensures
        r == route_of(input_format@, *conversion_type),
{
    if is_svg_input(input_format) {
        return ConversionRoute::Svg;
    }
    if is_pdf_input(input_format) {
        return ConversionRoute::Pdf;
    }
    match conversion_type {
        ConversionType::Image => ConversionRoute::Image,
        ConversionType::Document => ConversionRoute::Document,
        ConversionType::Audio => ConversionRoute::Audio,
        ConversionType::Video => ConversionRoute::Video,
        ConversionType::Pdf => ConversionRoute::Pdf,
    }
}

/// Chooses the converter for a file by the extension of its path; a path
/// without an extension counts as one with an empty extension.
pub fn convert_file(input_path: &str, conversion_type: &ConversionType) -> (r: ConversionRoute)
    ensures
        r == route_of(
            match extension_of(input_path@) {
                Some(e) => e,
                None => Seq::empty(),
            },
            *conversion_type,
        ),
{
    match extension(input_path) {
        Some(e) => convert(e.as_str(), conversion_type),
        None => {
            let empty = String::new();
            convert(empty.as_str(), conversion_type)
        },
    }
}

/// How many pages a PDF counts as: one where the count could not be read.
pub open spec fn pages_of(page_count: Option<u32>) -> u32 {
    match page_count {
        Some(n) => n,
        None => 1,
    }
}

/// Where the result of a PDF conversion goes: an archive `output.zip` for a
/// PDF of more than one page, the single image otherwise.
pub open spec fn pdf_result_path(
    output_dir: Seq<char>,
    output_format: Seq<char>,
    page_count: Option<u32>,
) -> Seq<char> {
    if pages_of(page_count) > 1 {
        joined(output_dir, "output.zip"@)
    } else {
        joined(output_dir, "output."@ + output_format)
    }
}

/// Decides how the result of a PDF conversion is packaged. Returns the path of
/// the one result file and whether it is an archive: the pages of a PDF with
/// more than one page go into a single archive, never into loose files.
pub fn convert_pdf_file_smart(output_dir: &str, output_format: &str, page_count: Option<u32>) -> (r:
    (String, bool))
    ensures
        r.0@ == pdf_result_path(output_dir@, output_format@, page_count),
        r.1 == (pages_of(page_count) > 1),
{
    let pages: u32 = match page_count {
        Some(n) => n,
        None => 1,
    };
    if pages > 1 {
        (join(output_dir, "output.zip"), true)
    } else {
        (join(output_dir, glue("output.", output_format).as_str()), false)
    }
}

/// The category of conversion for an extension given in lowercase.
pub open spec fn detected(ext: Seq<char>) -> Option<ConversionType> {
    if lists(SVG_INPUT@, ext) {
        Some(ConversionType::Image)
    } else if lists(PDF_INPUT@, ext) {
        Some(ConversionType::Pdf)
    } else if lists(IMAGE_INPUT@, ext) {
        Some(ConversionType::Image)
    } else if lists(DOCUMENT_INPUT@, ext) {
        Some(ConversionType::Document)
    } else if lists(AUDIO_INPUT@, ext) {
        Some(ConversionType::Audio)
    } else if lists(VIDEO_INPUT@, ext) {
        Some(ConversionType::Video)
    } else {
        None
    }
}

/// The category of conversion that reads files with the extension, whatever
/// the case of its name. A vector image is converted as an image.
pub fn detect_conversion_type(extension: &str) -> (r: Option<ConversionType>)
    ensures
        r == detected(lowercase(extension@)),
{
    let ext = to_lowercase(extension);
    if is_svg_input(ext.as_str()) {
        Some(ConversionType::Image)
    } else if is_pdf_input(ext.as_str()) {
        Some(ConversionType::Pdf)
    } else if is_supported_image_input(ext.as_str()) {
        Some(ConversionType::Image)
    } else if is_supported_document_input(ext.as_str()) {
        Some(ConversionType::Document)
    } else if is_supported_audio_input(ext.as_str()) {
        Some(ConversionType::Audio)
    } else if is_supported_video_input(ext.as_str()) {
        Some(ConversionType::Video)
    } else {
        None
    }
}

} // verus!
