//! Which image formats are read and how they are written.

use vstd::prelude::*;
use crate::config::formats::{
    is_supported_image_input, is_supported_image_output, lists, names, IMAGE_INPUT, IMAGE_OUTPUT,
};
use crate::error::{AppError, AppErrorView};
use crate::text::{glue, lowercase, str_eq, to_lowercase};
use crate::utils::encoding::{encode_image, encoding_of, image_error_text};

verus! {

/// The size and the colours of an image.
#[derive(Debug)]
pub struct ImageInfo {
    pub width: u32,
    pub height: u32,
    pub color_type: String,
}

/// A format in which an image file is saved.
#[derive(Clone, Copy, Debug, PartialEq, Eq, Structural)]
pub enum ImageFormat {
    Png,
    Jpeg,
    Gif,
    Bmp,
    WebP,
    Tiff,
    Ico,
}

/// The format that files of a name given in lowercase are saved in.
pub open spec fn image_format_of(format: Seq<char>) -> Option<ImageFormat> {
    if format == "png"@ {
        Some(ImageFormat::Png)
    } else if format == "jpg"@ || format == "jpeg"@ {
        Some(ImageFormat::Jpeg)
    } else if format == "gif"@ {
        Some(ImageFormat::Gif)
    } else if format == "bmp"@ {
        Some(ImageFormat::Bmp)
    } else if format == "webp"@ {
        Some(ImageFormat::WebP)
    } else if format == "tiff"@ {
        Some(ImageFormat::Tiff)
    } else if format == "ico"@ {
        Some(ImageFormat::Ico)
    } else {
        None
    }
}

/// The format in which files of the given name are saved, whatever the case
/// of the name.
pub fn get_image_format(format: &str) -> (r: Result<ImageFormat, AppError>)
    ensures
        match image_format_of(lowercase(format@)) {
            Some(f) => r matches Ok(g) && g == f,
            None => r matches Err(e) && e@ == AppErrorView::UnsupportedFormat(
                "Formato non supportato: "@ + format@,
            ),
        },
{
    let lower = to_lowercase(format);
    match image_format_for(lower.as_str()) {
        Some(f) => Ok(f),
        None => Err(AppError::UnsupportedFormat(glue("Formato non supportato: ", format))),
    }
}

/// The format in which files of a name given in lowercase are saved, where
/// there is one.
pub fn image_format_for(f: &str) -> (r: Option<ImageFormat>)
    ensures
        r == image_format_of(f@),
{
    if str_eq(f, "png") {
        Some(ImageFormat::Png)
    } else if str_eq(f, "jpg") || str_eq(f, "jpeg") {
        Some(ImageFormat::Jpeg)
    } else if str_eq(f, "gif") {
        Some(ImageFormat::Gif)
    } else if str_eq(f, "bmp") {
        Some(ImageFormat::Bmp)
    } else if str_eq(f, "webp") {
        Some(ImageFormat::WebP)
    } else if str_eq(f, "tiff") {
        Some(ImageFormat::Tiff)
    } else if str_eq(f, "ico") {
        Some(ImageFormat::Ico)
    } else {
        None
    }
}

/// What checking the formats of an image conversion comes to: the input is
/// checked first.
pub open spec fn image_check(input_format: Seq<char>, output_format: Seq<char>) -> Result<
    (),
    AppErrorView,
> {
    if !lists(IMAGE_INPUT@, input_format) {
        Err(AppErrorView::UnsupportedFormat("Formato input non supportato: "@ + input_format))
    } else if !lists(IMAGE_OUTPUT@, output_format) {
        Err(AppErrorView::UnsupportedFormat("Formato output non supportato: "@ + output_format))
    } else {
        Ok(())
    }
}

/// Accepts an image conversion whose formats are supported.
pub fn convert_image(input_format: &str, output_format: &str) -> (r: Result<(), AppError>)
    ensures
        match r {
            Ok(_) => image_check(input_format@, output_format@) is Ok,
            Err(e) => image_check(input_format@, output_format@) == Err::<(), AppErrorView>(e@),
        },
{
    if !is_supported_image_input(input_format) {
        return Err(
            AppError::UnsupportedFormat(glue("Formato input non supportato: ", input_format)),
        );
    }
    if !is_supported_image_output(output_format) {
        return Err(
            AppError::UnsupportedFormat(glue("Formato output non supportato: ", output_format)),
        );
    }
    Ok(())
}

/// A decoded image, with its size and colour type.
pub struct DecodedImage {
    pub image: image::DynamicImage,
    pub info: ImageInfo,
}

/// Decodes an image with `image::load_from_memory`, which guesses the format
/// from the first bytes, and reads its size and colour type with
/// `DynamicImage::width`, `DynamicImage::height` and `DynamicImage::color`.
/// Which data decodes, and to what, is for the crate and the decoders that
/// are registered with it to say: nothing is claimed of the result.
#[verifier::external_body]
fn load_from_memory(data: &[u8]) -> (r: Result<DecodedImage, image::ImageError>) {
    let image = image::load_from_memory(data)?;
    let color_type = format!("{:?}", image.color());
    let info = ImageInfo { width: image.width(), height: image.height(), color_type };
    Ok(DecodedImage { image, info })
}

/// What decoding gave, as a result of the library: the image, or an
/// `ImageError` with the text of the codec's error.
pub fn decoded(loaded: Result<DecodedImage, image::ImageError>) -> (r: Result<
    DecodedImage,
    AppError,
>)
    ensures
        match loaded {
            Ok(d) => r matches Ok(out) && out == d,
            Err(_) => r matches Err(AppError::ImageError(_)),
        },
{
    match loaded {
        Ok(d) => Ok(d),
        Err(e) => Err(AppError::ImageError(image_error_text(&e))),
    }
}

/// Every format that the image conversion writes has an encoder.
pub proof fn lemma_outputs_have_encoders(output_format: Seq<char>, quality: Option<u8>)
    requires
        lists(IMAGE_OUTPUT@, output_format),
    ensures
        encoding_of(lowercase(output_format), quality) is Some,
{
    let all = names(IMAGE_OUTPUT@);
    let f = lowercase(output_format);
    let k = choose|k: int| 0 <= k < all.len() && all[k] == f;
    assert(all[k] == IMAGE_OUTPUT@[k]@);
    assert(IMAGE_OUTPUT@.len() == 9);
    assert(k == 0 || k == 1 || k == 2 || k == 3 || k == 4 || k == 5 || k == 6 || k == 7 || k == 8);
}

/// Converts an image that was sent as data to another format, without
/// resizing it. A format that the conversion does not read or write is
/// refused before the data is looked at, the input format first. Otherwise the
/// data is decoded and written again: the result is the new data, or an
/// `ImageError` where the decoder or the encoder failed. The quality counts
/// for JPEG only.
pub fn convert_image_with_quality(
    input_data: &[u8],
    input_format: &str,
    output_format: &str,
    quality: Option<u8>,
) -> (r: Result<Vec<u8>, AppError>)
    ensures
        match image_check(input_format@, output_format@) {
            Ok(_) => r is Ok || r matches Err(AppError::ImageError(_)),
            Err(e) => r matches Err(x) && x@ == e,
        },
{
    convert_image(input_format, output_format)?;
    let picture = decoded(load_from_memory(input_data))?;
    proof {
        lemma_outputs_have_encoders(output_format@, quality);
    }
    encode_image(&picture.image, output_format, quality)
}

/// The size and the colour type of an image that was sent as data, as the
/// decoder gives them; an `ImageError` where it cannot decode the data.
pub fn get_image_info(data: &[u8]) -> (r: Result<ImageInfo, AppError>)
    ensures
        r matches Err(e) ==> e is ImageError,
{
    let picture = decoded(load_from_memory(data))?;
    Ok(picture.info)
}

} // verus!
