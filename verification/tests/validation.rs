use converty::config::formats::{
    is_pdf_input, is_supported_audio_input, is_supported_audio_output,
    is_supported_document_input, is_supported_document_output, is_supported_image_input,
    is_supported_image_output, is_supported_pdf_output, is_supported_svg_output,
    is_supported_video_input, is_supported_video_output, is_svg_input,
};
use converty::config::Config;
use converty::error::AppError;
use converty::utils::file::{get_extension, get_mime_type, validate_file_size};
use converty::utils::validation::{
    validate_conversion_formats, validate_format, validate_tool_available, ExternalTool,
    FormatCategory, FormatDirection,
};

#[test]
fn test_validate_image_formats() {
    assert!(validate_format("png", FormatCategory::Image, FormatDirection::Input).is_ok());
    assert!(validate_format("jpg", FormatCategory::Image, FormatDirection::Output).is_ok());
    assert!(validate_format("xyz", FormatCategory::Image, FormatDirection::Input).is_err());
}

#[test]
fn test_validate_conversion_formats() {
    assert!(validate_conversion_formats("png", "jpg", FormatCategory::Image).is_ok());
}

#[test]
fn test_validate_format_messages() {
    match validate_format("xyz", FormatCategory::Audio, FormatDirection::Input) {
        Err(AppError::UnsupportedFormat(text)) => {
            assert_eq!(text, "Formato input non supportato: xyz")
        }
        other => panic!("unexpected: {:?}", other),
    }
    match validate_format("Exe", FormatCategory::Video, FormatDirection::Output) {
        Err(AppError::UnsupportedFormat(text)) => {
            assert_eq!(text, "Formato output non supportato: Exe")
        }
        other => panic!("unexpected: {:?}", other),
    }
}

#[test]
fn test_validate_conversion_checks_input_first() {
    match validate_conversion_formats("xyz", "abc", FormatCategory::Document) {
        Err(AppError::UnsupportedFormat(text)) => {
            assert_eq!(text, "Formato input non supportato: xyz")
        }
        other => panic!("unexpected: {:?}", other),
    }
    match validate_conversion_formats("md", "abc", FormatCategory::Document) {
        Err(AppError::UnsupportedFormat(text)) => {
            assert_eq!(text, "Formato output non supportato: abc")
        }
        other => panic!("unexpected: {:?}", other),
    }
}

#[test]
fn test_pdf_category_reads_pdf_and_writes_images() {
    assert!(validate_format("PDF", FormatCategory::Pdf, FormatDirection::Input).is_ok());
    assert!(validate_format("png", FormatCategory::Pdf, FormatDirection::Input).is_err());
    assert!(validate_format("webp", FormatCategory::Pdf, FormatDirection::Output).is_ok());
    assert!(validate_format("pdf", FormatCategory::Pdf, FormatDirection::Output).is_err());
}

#[test]
fn test_format_lists() {
    assert!(is_supported_image_input("exr"));
    assert!(is_supported_image_input("JPEG"));
    assert!(!is_supported_image_input("svg"));
    assert!(is_supported_image_output("qoi"));
    assert!(!is_supported_image_output("ico"));
    assert!(is_svg_input("SVG"));
    assert!(!is_svg_input("png"));
    assert!(is_supported_svg_output("avif"));
    assert!(!is_supported_svg_output("tiff"));
    assert!(is_supported_document_input("markdown"));
    assert!(!is_supported_document_input("pdf"));
    assert!(is_supported_document_output("pdf"));
    assert!(!is_supported_document_output("md"));
    assert!(is_supported_audio_input("m4a"));
    assert!(!is_supported_audio_output("m4a"));
    assert!(is_supported_audio_output("flac"));
    assert!(is_supported_video_input("wmv"));
    assert!(!is_supported_video_output("wmv"));
    assert!(is_supported_video_output("gif"));
    assert!(is_pdf_input("Pdf"));
    assert!(!is_pdf_input("pdfx"));
    assert!(is_supported_pdf_output("tiff"));
    assert!(!is_supported_pdf_output("webp"));
    assert!(!is_supported_image_input(""));
}

#[test]
fn test_tool_availability() {
    assert!(validate_tool_available(ExternalTool::Ffmpeg, true).is_ok());
    assert!(validate_tool_available(ExternalTool::Pdftoppm, true).is_ok());
    match validate_tool_available(ExternalTool::Ffmpeg, false) {
        Err(AppError::FfmpegError(text)) => {
            assert_eq!(text, "FFmpeg non è disponibile sul sistema")
        }
        other => panic!("unexpected: {:?}", other),
    }
    match validate_tool_available(ExternalTool::Pdftoppm, false) {
        Err(AppError::PopplerError(text)) => {
            assert_eq!(text, "pdftoppm non è disponibile sul sistema")
        }
        other => panic!("unexpected: {:?}", other),
    }
}

#[test]
fn test_file_size_limit() {
    assert!(validate_file_size(0, 0).is_ok());
    assert!(validate_file_size(50 * 1024 * 1024, 50).is_ok());
    match validate_file_size(50 * 1024 * 1024 + 1, 50) {
        Err(AppError::FileTooLarge(mb)) => assert_eq!(mb, 50),
        other => panic!("unexpected: {:?}", other),
    }
    assert!(validate_file_size(u64::MAX, u64::MAX).is_ok());
}

#[test]
fn test_max_file_size_bytes() {
    let config = Config::with_temp_root("/tmp");
    assert_eq!(config.max_file_size_mb, 50);
    assert_eq!(config.max_file_size_bytes(), 52_428_800);
    assert_eq!(config.port, 4000);
    assert_eq!(config.host, "0.0.0.0");
    assert_eq!(config.job_retention_hours, 24);
    assert_eq!(config.frontend_url, "http://localhost:3000");
    assert!(config.temp_dir.ends_with("converty"));
}

#[test]
fn test_get_extension() {
    assert_eq!(get_extension("photo.PNG"), Some("png".to_string()));
    assert_eq!(get_extension("archive.tar.GZ"), Some("gz".to_string()));
    assert_eq!(get_extension("noext"), None);
    assert_eq!(get_extension(".hidden"), None);
    assert_eq!(get_extension("dir.d/file"), None);
}

#[test]
fn test_get_mime_type() {
    assert_eq!(get_mime_type("a.png"), "image/png");
    assert_eq!(get_mime_type("a.unknownext"), "application/octet-stream");
}
