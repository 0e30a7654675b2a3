//! Writing a decoded image in one of the output formats.

use vstd::prelude::*;
use crate::error::{AppError, AppErrorView};
use crate::text::{glue, lowercase, str_eq, to_lowercase};

verus! {

/// A decoded image of the `image` crate. Nothing is known here of what it
/// holds.
#[verifier::external_type_specification]
#[verifier::external_body]
pub struct ExDynamicImage(::image::DynamicImage);

/// The error of the `image` crate.
#[verifier::external_type_specification]
#[verifier::external_body]
pub struct ExImageError(::image::ImageError);

/// How an image is encoded.
#[derive(Clone, Copy, Debug, PartialEq, Eq, Structural)]
pub enum ImageEncoding {
    /// JPEG of the given quality.
    Jpeg(u8),
    /// PNG with the best compression and adaptive filtering.
    Png,
    WebP,
    Gif,
    Bmp,
    Avif,
    Qoi,
    Tiff,
}

/// The quality of a JPEG when the request names none.
pub const DEFAULT_JPEG_QUALITY: u8 = 85;

/// How an image is encoded in a format given in lowercase.
pub open spec fn encoding_of(format: Seq<char>, quality: Option<u8>) -> Option<ImageEncoding> {
    if format == "jpg"@ || format == "jpeg"@ {
        Some(
            ImageEncoding::Jpeg(
                match quality {
                    Some(q) => q,
                    None => DEFAULT_JPEG_QUALITY,
                },
            ),
        )
    } else if format == "png"@ {
        Some(ImageEncoding::Png)
    } else if format == "webp"@ {
        Some(ImageEncoding::WebP)
    } else if format == "gif"@ {
        Some(ImageEncoding::Gif)
    } else if format == "bmp"@ {
        Some(ImageEncoding::Bmp)
    } else if format == "avif"@ {
        Some(ImageEncoding::Avif)
    } else if format == "qoi"@ {
        Some(ImageEncoding::Qoi)
    } else if format == "tiff"@ || format == "tif"@ {
        Some(ImageEncoding::Tiff)
    } else {
        None
    }
}

/// Chooses the encoder for an output format, whatever the case of its name.
/// The quality counts for JPEG only.
pub fn image_encoding(format: &str, quality: Option<u8>) -> (r: Result<ImageEncoding, AppError>)
    ensures
        match encoding_of(lowercase(format@), quality) {
            Some(e) => r matches Ok(g) && g == e,
            None => r matches Err(e) && e@ == AppErrorView::UnsupportedFormat(
                "Formato output non supportato: "@ + format@,
            ),
        },
{
    let lower = to_lowercase(format);
    match encoding_for(lower.as_str(), quality) {
        Some(e) => Ok(e),
        None => Err(AppError::UnsupportedFormat(glue("Formato output non supportato: ", format))),
    }
}

/// The encoder for an output format whose name is given in lowercase, where
/// there is one. The quality counts for JPEG only.
pub fn encoding_for(f: &str, quality: Option<u8>) -> (r: Option<ImageEncoding>)
    ensures
        r == encoding_of(f@, quality),
{
    if str_eq(f, "jpg") || str_eq(f, "jpeg") {
        Some(
            ImageEncoding::Jpeg(
                match quality {
                    Some(q) => q,
                    None => DEFAULT_JPEG_QUALITY,
                },
            ),
        )
    } else if str_eq(f, "png") {
        Some(ImageEncoding::Png)
    } else if str_eq(f, "webp") {
        Some(ImageEncoding::WebP)
    } else if str_eq(f, "gif") {
        Some(ImageEncoding::Gif)
    } else if str_eq(f, "bmp") {
        Some(ImageEncoding::Bmp)
    } else if str_eq(f, "avif") {
        Some(ImageEncoding::Avif)
    } else if str_eq(f, "qoi") {
        Some(ImageEncoding::Qoi)
    } else if str_eq(f, "tiff") || str_eq(f, "tif") {
        Some(ImageEncoding::Tiff)
    } else {
        None
    }
}

/// The text of an error of the codecs, as `Display` of `image::ImageError`
/// writes it. Nothing is claimed of the text.
#[verifier::external_body]
pub(crate) fn image_error_text(error: &image::ImageError) -> (r: String) {
    error.to_string()
}

/// Writes the image as a JPEG of the given quality, with
/// `image::codecs::jpeg::JpegEncoder::new_with_quality` and
/// `DynamicImage::write_with_encoder`. The encoder brings a quality outside
/// 1..=100 into that range. Nothing is claimed of the bytes or of when the
/// codec fails.
#[verifier::external_body]
fn write_jpeg(img: &image::DynamicImage, quality: u8) -> (r: Result<Vec<u8>, image::ImageError>) {
    let mut buffer = std::io::Cursor::new(Vec::new());
    let encoder = image::codecs::jpeg::JpegEncoder::new_with_quality(&mut buffer, quality);
    img.write_with_encoder(encoder)?;
    Ok(buffer.into_inner())
}

/// Writes the image as a PNG with the best compression and adaptive
/// filtering, with `image::codecs::png::PngEncoder::new_with_quality` and
/// `DynamicImage::write_with_encoder`. Nothing is claimed of the bytes or of
/// when the codec fails.
#[verifier::external_body]
fn write_png(img: &image::DynamicImage) -> (r: Result<Vec<u8>, image::ImageError>) {
    let mut buffer = std::io::Cursor::new(Vec::new());
    let encoder = image::codecs::png::PngEncoder::new_with_quality(
        &mut buffer,
        image::codecs::png::CompressionType::Best,
        image::codecs::png::FilterType::Adaptive,
    );
    img.write_with_encoder(encoder)?;
    Ok(buffer.into_inner())
}

/// Writes the image in the format of the encoding with
/// `DynamicImage::write_to`, which uses the settings that the crate has for
/// the format. Nothing is claimed of the bytes or of when the codec fails; a
/// format that the crate was built without is an error.
#[verifier::external_body]
fn write_to(img: &image::DynamicImage, encoding: ImageEncoding) -> (r: Result<
    Vec<u8>,
    image::ImageError,
>) {
    let format = match encoding {
        ImageEncoding::Jpeg(_) => image::ImageFormat::Jpeg,
        ImageEncoding::Png => image::ImageFormat::Png,
        ImageEncoding::WebP => image::ImageFormat::WebP,
        ImageEncoding::Gif => image::ImageFormat::Gif,
        ImageEncoding::Bmp => image::ImageFormat::Bmp,
        ImageEncoding::Avif => image::ImageFormat::Avif,
        ImageEncoding::Qoi => image::ImageFormat::Qoi,
        ImageEncoding::Tiff => image::ImageFormat::Tiff,
    };
    let mut buffer = std::io::Cursor::new(Vec::new());
    img.write_to(&mut buffer, format)?;
    Ok(buffer.into_inner())
}

/// What a codec gave, as a result of the library: the bytes, or an
/// `ImageError` with the text of the codec's error.
pub fn encoded(written: Result<Vec<u8>, image::ImageError>) -> (r: Result<Vec<u8>, AppError>)
    ensures
        match written {
            Ok(bytes) => r == Ok::<Vec<u8>, AppError>(bytes),
            Err(_) => r matches Err(AppError::ImageError(_)),
        },
{
    match written {
        Ok(bytes) => Ok(bytes),
        Err(e) => Err(AppError::ImageError(image_error_text(&e))),
    }
}

/// Writes an image in an output format, whatever the case of its name. A
/// format without an encoder is refused before any codec runs; otherwise the
/// result is what the codec of `encoding_of` gave. The quality counts for
/// JPEG only.
pub fn encode_image(img: &image::DynamicImage, format: &str, quality: Option<u8>) -> (r: Result<
    Vec<u8>,
    AppError,
>)
    ensures
        match encoding_of(lowercase(format@), quality) {
            Some(_) => r is Ok || r matches Err(AppError::ImageError(_)),
            None => r matches Err(e) && e@ == AppErrorView::UnsupportedFormat(
                "Formato output non supportato: "@ + format@,
            ),
        },
{
    match image_encoding(format, quality)? {
        ImageEncoding::Jpeg(q) => encoded(write_jpeg(img, q)),
        ImageEncoding::Png => encoded(write_png(img)),
        other => encoded(write_to(img, other)),
    }
}

} // verus!
