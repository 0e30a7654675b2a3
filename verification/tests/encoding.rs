use converty::error::AppError;
use converty::handlers::image::{convert_image_with_quality, get_image_info};
use converty::utils::encoding::encode_image;

fn create_test_image() -> image::DynamicImage {
    let img = image::RgbaImage::from_fn(10, 10, |_, _| image::Rgba([255, 0, 0, 255]));
    image::DynamicImage::ImageRgba8(img)
}

fn png_bytes(img: &image::DynamicImage) -> Vec<u8> {
    encode_image(img, "png", None).unwrap()
}

#[test]
fn test_encode_png() {
    let img = create_test_image();
    let result = encode_image(&img, "png", None);
    assert!(result.is_ok());
    assert!(!result.unwrap().is_empty());
}

#[test]
fn test_encode_jpeg() {
    let img = create_test_image();
    let result = encode_image(&img, "jpg", Some(80));
    assert!(result.is_ok());
    assert!(!result.unwrap().is_empty());
}

#[test]
fn test_encode_unsupported() {
    let img = create_test_image();
    let result = encode_image(&img, "xyz", None);
    assert!(result.is_err());
}

#[test]
fn test_encode_unsupported_names_the_format() {
    match encode_image(&create_test_image(), "XyZ", Some(10)) {
        Err(AppError::UnsupportedFormat(m)) => assert_eq!(m, "Formato output non supportato: XyZ"),
        other => panic!("unexpected {:?}", other.map(|b| b.len())),
    }
    match encode_image(&create_test_image(), "ico", None) {
        Err(AppError::UnsupportedFormat(m)) => assert_eq!(m, "Formato output non supportato: ico"),
        other => panic!("unexpected {:?}", other.map(|b| b.len())),
    }
}

#[test]
fn test_encode_writes_the_named_format() {
    let img = create_test_image();
    for (name, format) in [
        ("png", image::ImageFormat::Png),
        ("PNG", image::ImageFormat::Png),
        ("jpg", image::ImageFormat::Jpeg),
        ("jpeg", image::ImageFormat::Jpeg),
        ("webp", image::ImageFormat::WebP),
        ("gif", image::ImageFormat::Gif),
        ("bmp", image::ImageFormat::Bmp),
        ("tiff", image::ImageFormat::Tiff),
        ("tif", image::ImageFormat::Tiff),
    ] {
        let bytes = encode_image(&img, name, None).unwrap();
        assert_eq!(image::guess_format(&bytes).unwrap(), format, "{}", name);
        let back = image::load_from_memory(&bytes).unwrap();
        assert_eq!((back.width(), back.height()), (10, 10), "{}", name);
    }
}

#[test]
fn test_encode_png_keeps_pixels() {
    let img = create_test_image();
    let back = image::load_from_memory(&png_bytes(&img)).unwrap();
    assert_eq!(back.to_rgba8().into_raw(), img.to_rgba8().into_raw());
}

#[test]
fn test_encode_jpeg_quality_counts() {
    let img = image::DynamicImage::ImageRgba8(image::RgbaImage::from_fn(64, 64, |x, y| {
        image::Rgba([(x * 4) as u8, (y * 4) as u8, ((x * y) % 251) as u8, 255])
    }));
    let low = encode_image(&img, "jpg", Some(10)).unwrap();
    let high = encode_image(&img, "jpg", Some(95)).unwrap();
    let default = encode_image(&img, "jpg", None).unwrap();
    let same = encode_image(&img, "jpg", Some(85)).unwrap();
    assert!(low.len() < high.len());
    assert_eq!(default, same);
    assert_ne!(default, high);
}

#[test]
fn test_encode_codec_without_support_is_image_error() {
    match encode_image(&create_test_image(), "avif", None) {
        Err(AppError::ImageError(_)) => {}
        other => panic!("unexpected {:?}", other.map(|b| b.len())),
    }
}

#[test]
fn test_convert_image_with_quality() {
    let source = png_bytes(&create_test_image());
    let jpeg = convert_image_with_quality(&source, "png", "jpg", Some(80)).unwrap();
    assert_eq!(image::guess_format(&jpeg).unwrap(), image::ImageFormat::Jpeg);
    let back = image::load_from_memory(&jpeg).unwrap();
    assert_eq!((back.width(), back.height()), (10, 10));
    let bmp = convert_image_with_quality(&source, "PNG", "BMP", None).unwrap();
    assert_eq!(image::guess_format(&bmp).unwrap(), image::ImageFormat::Bmp);
    assert_ne!(bmp, source);
}

#[test]
fn test_convert_image_with_quality_refuses() {
    let source = png_bytes(&create_test_image());
    match convert_image_with_quality(&source, "xyz", "abc", None) {
        Err(AppError::UnsupportedFormat(m)) => assert_eq!(m, "Formato input non supportato: xyz"),
        other => panic!("unexpected {:?}", other.map(|b| b.len())),
    }
    match convert_image_with_quality(&source, "png", "ico", None) {
        Err(AppError::UnsupportedFormat(m)) => assert_eq!(m, "Formato output non supportato: ico"),
        other => panic!("unexpected {:?}", other.map(|b| b.len())),
    }
    match convert_image_with_quality(b"not an image", "png", "jpg", None) {
        Err(AppError::ImageError(_)) => {}
        other => panic!("unexpected {:?}", other.map(|b| b.len())),
    }
}

#[test]
fn test_get_image_info() {
    let info = get_image_info(&png_bytes(&create_test_image())).unwrap();
    assert_eq!((info.width, info.height), (10, 10));
    assert_eq!(info.color_type, "Rgba8");
    let gray = image::DynamicImage::ImageLuma8(image::GrayImage::from_fn(3, 7, |_, _| image::Luma([9])));
    let info = get_image_info(&png_bytes(&gray)).unwrap();
    assert_eq!((info.width, info.height), (3, 7));
    assert_eq!(info.color_type, "L8");
    match get_image_info(b"nothing") {
        Err(AppError::ImageError(_)) => {}
        other => panic!("unexpected {:?}", other.map(|i| i.width)),
    }
}
