use image_resize::{crop_window, resolve_size, Config, ImageQuality, ResizeError, ResizeParams, TransformMode};

fn request(t: TransformMode, w: u32, h: Option<u32>) -> ResizeParams {
    ResizeParams { t, w, h, o: false, b: 0, q: ImageQuality::High }
}

#[test]
fn fit_keeps_the_proportions_of_the_source() {
    let config = Config::default();
    assert_eq!(resolve_size(&request(TransformMode::Fit, 640, None), 1000, 500, &config), (640, 320));
    assert_eq!(resolve_size(&request(TransformMode::Fit, 640, None), 500, 1000, &config), (640, 1280));
    assert_eq!(resolve_size(&request(TransformMode::Fit, 100, None), 300, 300, &config), (100, 100));
}

#[test]
fn fit_rounds_the_height_to_the_nearest_pixel() {
    let config = Config::default();
    assert_eq!(resolve_size(&request(TransformMode::Fit, 100, None), 300, 100, &config), (100, 33));
    assert_eq!(resolve_size(&request(TransformMode::Fit, 100, None), 300, 200, &config), (100, 67));
    assert_eq!(resolve_size(&request(TransformMode::Fit, 3, None), 2, 1, &config), (3, 2));
    assert_eq!(resolve_size(&request(TransformMode::Fit, 1, None), 4, 1, &config), (1, 0));
    assert_eq!(resolve_size(&request(TransformMode::Fit, 2, None), 4, 1, &config), (2, 1));
}

#[test]
fn crop_takes_the_default_height() {
    let mut config = Config::default();
    config.default_height = 400;
    assert_eq!(resolve_size(&request(TransformMode::Crop, 640, None), 1000, 500, &config), (640, 400));
    assert_eq!(resolve_size(&request(TransformMode::Crop, 640, None), 10, 9000, &config), (640, 400));
    config.default_height = 123;
    assert_eq!(resolve_size(&request(TransformMode::Crop, 640, None), 1000, 500, &config), (640, 123));
}

#[test]
fn a_height_that_is_asked_for_stands() {
    let config = Config::default();
    assert_eq!(resolve_size(&request(TransformMode::Fit, 640, Some(410)), 1000, 500, &config), (640, 410));
    assert_eq!(resolve_size(&request(TransformMode::Crop, 640, Some(410)), 1000, 500, &config), (640, 410));
}

#[test]
fn proportional_height_is_capped() {
    let config = Config::default();
    assert_eq!(
        resolve_size(&request(TransformMode::Fit, u32::MAX, None), 1, u32::MAX, &config),
        (u32::MAX, u32::MAX)
    );
    assert_eq!(
        resolve_size(&request(TransformMode::Fit, 4100, None), 1, 4_000_000, &config),
        (4100, u32::MAX)
    );
}

#[test]
fn source_without_width_has_no_proportions() {
    let config = Config::default();
    assert_eq!(resolve_size(&request(TransformMode::Fit, 640, None), 0, 0, &config), (640, 0));
    assert_eq!(resolve_size(&request(TransformMode::Fit, 0, None), 0, 500, &config), (0, 0));
    assert_eq!(resolve_size(&request(TransformMode::Fit, 640, None), 0, 500, &config), (640, u32::MAX));
    assert_eq!(resolve_size(&request(TransformMode::Fit, 640, None), 1000, 0, &config), (640, 0));
}

#[test]
fn window_sits_in_the_middle() {
    assert_eq!(crop_window(1000, 500, 640, 400), Ok((180, 50)));
    assert_eq!(crop_window(1000, 500, 1000, 500), Ok((0, 0)));
    assert_eq!(crop_window(1000, 500, 0, 0), Ok((500, 250)));
    assert_eq!(crop_window(11, 11, 4, 6), Ok((3, 2)));
}

#[test]
fn window_larger_than_the_source_is_refused() {
    assert_eq!(crop_window(1000, 500, 1001, 400), Err(ResizeError::CropExceedsSource));
    assert_eq!(crop_window(1000, 500, 640, 501), Err(ResizeError::CropExceedsSource));
    assert_eq!(crop_window(0, 0, 1, 1), Err(ResizeError::CropExceedsSource));
    assert_eq!(crop_window(10, 10, u32::MAX, u32::MAX), Err(ResizeError::CropExceedsSource));
}
