use image_resize::{ImageFormat, ImageQuality, ResizeError, TransformMode};

#[test]
fn extensions_name_formats() {
    assert_eq!(ImageFormat::from_extension("png"), Some(ImageFormat::Png));
    assert_eq!(ImageFormat::from_extension("jpg"), Some(ImageFormat::Jpeg));
    assert_eq!(ImageFormat::from_extension("jpeg"), Some(ImageFormat::Jpeg));
    assert_eq!(ImageFormat::from_extension("webp"), Some(ImageFormat::Webp));
    assert_eq!(ImageFormat::from_extension("gif"), Some(ImageFormat::Gif));
}

#[test]
fn other_extensions_name_no_format() {
    assert_eq!(ImageFormat::from_extension("bmp"), None);
    assert_eq!(ImageFormat::from_extension("PNG"), None);
    assert_eq!(ImageFormat::from_extension(""), None);
    assert_eq!(ImageFormat::from_extension(".png"), None);
    assert_eq!(ImageFormat::from_extension("png "), None);
}

#[test]
fn names_and_media_types_name_formats() {
    assert_eq!(ImageFormat::from("png".to_string()), ImageFormat::Png);
    assert_eq!(ImageFormat::from("PNG".to_string()), ImageFormat::Png);
    assert_eq!(ImageFormat::from("image/png".to_string()), ImageFormat::Png);
    assert_eq!(ImageFormat::from("Image/PNG".to_string()), ImageFormat::Png);
    assert_eq!(ImageFormat::from("jpg".to_string()), ImageFormat::Jpeg);
    assert_eq!(ImageFormat::from("JPEG".to_string()), ImageFormat::Jpeg);
    assert_eq!(ImageFormat::from("image/jpeg".to_string()), ImageFormat::Jpeg);
    assert_eq!(ImageFormat::from("webp".to_string()), ImageFormat::Webp);
    assert_eq!(ImageFormat::from("image/WebP".to_string()), ImageFormat::Webp);
}

#[test]
fn unknown_names_count_as_jpeg() {
    assert_eq!(ImageFormat::from("gif".to_string()), ImageFormat::Jpeg);
    assert_eq!(ImageFormat::from("image/gif".to_string()), ImageFormat::Jpeg);
    assert_eq!(ImageFormat::from("".to_string()), ImageFormat::Jpeg);
    assert_eq!(ImageFormat::from("png;q=1".to_string()), ImageFormat::Jpeg);
}

#[test]
fn names_match_as_the_lower_cased_text_does() {
    let samples = ["PNG", "Png", "ımage/png", "İMAGE/PNG", "WEBP", "ＷＥＢＰ", "image/Jpeg", "KPNG"];
    for s in samples {
        let expected = match s.to_lowercase().as_str() {
            "png" | "image/png" => ImageFormat::Png,
            "jpg" | "jpeg" | "image/jpeg" => ImageFormat::Jpeg,
            "webp" | "image/webp" => ImageFormat::Webp,
            _ => ImageFormat::Jpeg,
        };
        assert_eq!(ImageFormat::from(s.to_string()), expected);
    }
}

#[test]
fn content_types() {
    assert_eq!(ImageFormat::Png.content_type(), "image/png");
    assert_eq!(ImageFormat::Jpeg.content_type(), "image/jpeg");
    assert_eq!(ImageFormat::Webp.content_type(), "image/webp");
    assert_eq!(ImageFormat::Gif.content_type(), "image/gif");
}

#[test]
fn mode_codes() {
    assert_eq!(TransformMode::Fit.to_string(), "f");
    assert_eq!(TransformMode::Crop.to_string(), "c");
    assert_eq!(TransformMode::from_name("fit"), Some(TransformMode::Fit));
    assert_eq!(TransformMode::from_name("f"), Some(TransformMode::Fit));
    assert_eq!(TransformMode::from_name("crop"), Some(TransformMode::Crop));
    assert_eq!(TransformMode::from_name("c"), Some(TransformMode::Crop));
    assert_eq!(TransformMode::from_name("Fit"), None);
    assert_eq!(TransformMode::from_name(""), None);
}

#[test]
fn quality_codes() {
    assert_eq!(ImageQuality::Low.to_string(), "l");
    assert_eq!(ImageQuality::Medium.to_string(), "m");
    assert_eq!(ImageQuality::High.to_string(), "h");
    assert_eq!(ImageQuality::Best.to_string(), "b");
    assert_eq!(ImageQuality::from_name("low"), Some(ImageQuality::Low));
    assert_eq!(ImageQuality::from_name("l"), Some(ImageQuality::Low));
    assert_eq!(ImageQuality::from_name("medium"), Some(ImageQuality::Medium));
    assert_eq!(ImageQuality::from_name("m"), Some(ImageQuality::Medium));
    assert_eq!(ImageQuality::from_name("high"), Some(ImageQuality::High));
    assert_eq!(ImageQuality::from_name("h"), Some(ImageQuality::High));
    assert_eq!(ImageQuality::from_name("best"), Some(ImageQuality::Best));
    assert_eq!(ImageQuality::from_name("b"), Some(ImageQuality::Best));
    assert_eq!(ImageQuality::from_name("x"), None);
}

#[test]
fn error_messages() {
    assert_eq!(ResizeError::UnknownFormat.message(), "Unknown file format");
    assert_eq!(ResizeError::UnsupportedFormat.message(), "Unknown format");
    assert_eq!(ResizeError::CropExceedsSource.message(), "Crop target exceeds the source image");
    assert_eq!(ResizeError::TooLarge.message(), "Image dimensions are too large");
    assert_eq!(ResizeError::UnsupportedLayout.message(), "Pixel layout cannot be blurred");
    assert_eq!(ResizeError::Resample.message(), "Resampling failed");
    assert_eq!(ResizeError::Encode.message(), "Encoding failed");
}
