//! Checks of formats and tools before a conversion.

use vstd::prelude::*;
use crate::config::formats::{
    is_supported_audio_input, is_supported_audio_output, is_supported_document_input,
    is_supported_document_output, is_supported_image_input, is_supported_image_output,
    is_supported_video_input, is_supported_video_output, lists, AUDIO_INPUT, AUDIO_OUTPUT,
    DOCUMENT_INPUT, DOCUMENT_OUTPUT, IMAGE_INPUT, IMAGE_OUTPUT, VIDEO_INPUT, VIDEO_OUTPUT,
};
use crate::error::{AppError, AppErrorView};
use crate::text::{glue, lowercase, str_eq, to_lowercase};

verus! {

/// Whether a format is read or written.
#[derive(Clone, Copy, Debug, PartialEq, Eq, Structural)]
pub enum FormatDirection {
    Input,
    Output,
}

/// The kind of file that a format belongs to.
#[derive(Clone, Copy, Debug, PartialEq, Eq, Structural)]
pub enum FormatCategory {
    Image,
    Document,
    Audio,
    Video,
    Pdf,
}

/// A program that a conversion runs.
#[derive(Clone, Copy, Debug, PartialEq, Eq, Structural)]
pub enum ExternalTool {
    Ffmpeg,
    Pdftoppm,
}

/// Whether the conversions of a category support the format in the given
/// direction. A PDF conversion reads `pdf` and writes what the image conversion
/// writes.
pub open spec fn format_supported(
    format: Seq<char>,
    category: FormatCategory,
    direction: FormatDirection,
) -> bool {
    match (category, direction) {
        (FormatCategory::Image, FormatDirection::Input) => lists(IMAGE_INPUT@, format),
        (FormatCategory::Image, FormatDirection::Output) => lists(IMAGE_OUTPUT@, format),
        (FormatCategory::Document, FormatDirection::Input) => lists(DOCUMENT_INPUT@, format),
        (FormatCategory::Document, FormatDirection::Output) => lists(DOCUMENT_OUTPUT@, format),
        (FormatCategory::Audio, FormatDirection::Input) => lists(AUDIO_INPUT@, format),
        (FormatCategory::Audio, FormatDirection::Output) => lists(AUDIO_OUTPUT@, format),
        (FormatCategory::Video, FormatDirection::Input) => lists(VIDEO_INPUT@, format),
        (FormatCategory::Video, FormatDirection::Output) => lists(VIDEO_OUTPUT@, format),
        (FormatCategory::Pdf, FormatDirection::Input) => lowercase(format) == "pdf"@,
        (FormatCategory::Pdf, FormatDirection::Output) => lists(IMAGE_OUTPUT@, format),
    }
}

/// The text with which a format is refused.
pub open spec fn unsupported_text(format: Seq<char>, direction: FormatDirection) -> Seq<char> {
    match direction {
        FormatDirection::Input => "Formato input non supportato: "@ + format,
        FormatDirection::Output => "Formato output non supportato: "@ + format,
    }
}

/// What validating a format comes to.
pub open spec fn format_check(
    format: Seq<char>,
    category: FormatCategory,
    direction: FormatDirection,
) -> Result<(), AppErrorView> {
    if format_supported(format, category, direction) {
        Ok(())
    } else {
        Err(AppErrorView::UnsupportedFormat(unsupported_text(format, direction)))
    }
}

/// Accepts a format that the conversions of the category support in the given
/// direction.
pub fn validate_format(format: &str, category: FormatCategory, direction: FormatDirection) -> (r:
    Result<(), AppError>)
    ensures
        match r {
            Ok(_) => format_check(format@, category, direction) is Ok,
            Err(e) => format_check(format@, category, direction) == Err::<(), AppErrorView>(e@),
        },
{
    let is_valid: bool = match (category, direction) {
        (FormatCategory::Image, FormatDirection::Input) => is_supported_image_input(format),
        (FormatCategory::Image, FormatDirection::Output) => is_supported_image_output(format),
        (FormatCategory::Document, FormatDirection::Input) => is_supported_document_input(format),
        (FormatCategory::Document, FormatDirection::Output) => is_supported_document_output(format),
        (FormatCategory::Audio, FormatDirection::Input) => is_supported_audio_input(format),
        (FormatCategory::Audio, FormatDirection::Output) => is_supported_audio_output(format),
        (FormatCategory::Video, FormatDirection::Input) => is_supported_video_input(format),
        (FormatCategory::Video, FormatDirection::Output) => is_supported_video_output(format),
        (FormatCategory::Pdf, FormatDirection::Input) => str_eq(
            to_lowercase(format).as_str(),
            "pdf",
        ),
        (FormatCategory::Pdf, FormatDirection::Output) => is_supported_image_output(format),
    };
    if !is_valid {
        let text: String = match direction {
            FormatDirection::Input => glue("Formato input non supportato: ", format),
            FormatDirection::Output => glue("Formato output non supportato: ", format),
        };
        return Err(AppError::UnsupportedFormat(text));
    }
    Ok(())
}

/// Accepts a tool that was found on the system.
pub fn validate_tool_available(tool: ExternalTool, available: bool) -> (r: Result<(), AppError>)
    ensures
        available ==> r is Ok,
        !available ==> (r matches Err(e) && e@ == (match tool {
            ExternalTool::Ffmpeg => AppErrorView::FfmpegError(
                "FFmpeg non è disponibile sul sistema"@,
            ),
            ExternalTool::Pdftoppm => AppErrorView::PopplerError(
                "pdftoppm non è disponibile sul sistema"@,
            ),
        })),
{
    if available {
        return Ok(());
    }
    match tool {
        ExternalTool::Ffmpeg => Err(
            AppError::FfmpegError("FFmpeg non è disponibile sul sistema".to_string()),
        ),
        ExternalTool::Pdftoppm => Err(
            AppError::PopplerError("pdftoppm non è disponibile sul sistema".to_string()),
        ),
    }
}

/// What validating the two formats of a conversion comes to: the input is
/// checked first.
pub open spec fn conversion_check(
    input_format: Seq<char>,
    output_format: Seq<char>,
    category: FormatCategory,
) -> Result<(), AppErrorView> {
    match format_check(input_format, category, FormatDirection::Input) {
        Err(e) => Err(e),
        Ok(_) => format_check(output_format, category, FormatDirection::Output),
    }
}

/// Accepts a conversion whose input and output formats the category supports.
pub fn validate_conversion_formats(
    input_format: &str,
    output_format: &str,
    category: FormatCategory,
) -> (r: Result<(), AppError>)
    ensures
        match r {
            Ok(_) => conversion_check(input_format@, output_format@, category) is Ok,
            Err(e) => conversion_check(input_format@, output_format@, category) == Err::<
                (),
                AppErrorView,
            >(e@),
        },
{
    match validate_format(input_format, category, FormatDirection::Input) {
        Err(e) => Err(e),
        Ok(_) => validate_format(output_format, category, FormatDirection::Output),
    }
}

} // verus!
