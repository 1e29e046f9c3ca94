use image_resize::params::find_value;
use image_resize::{Config, ImageQuality, ResizeParams, TransformMode};

fn pairs(list: &[(&str, &str)]) -> Vec<(String, String)> {
    list.iter().map(|(k, v)| (k.to_string(), v.to_string())).collect()
}

#[test]
fn resolves_the_documented_request() {
    let config = Config::default();
    let params = ResizeParams::from_query(
        &pairs(&[("t", "c"), ("w", "630"), ("h", "410"), ("b", "5"), ("q", "h")]),
        &config,
    );
    assert_eq!(
        params,
        ResizeParams {
            t: TransformMode::Crop,
            w: 630,
            h: Some(410),
            o: false,
            b: 5,
            q: ImageQuality::High,
        }
    );
}

#[test]
fn resolves_the_documented_request_from_a_url() {
    let config = Config::default();
    let params =
        ResizeParams::from_url("https://img.example.com/a/photo.jpg?t=c&w=630&h=410&b=5&q=h", &config)
            .unwrap();
    assert_eq!(params.t, TransformMode::Crop);
    assert_eq!(params.w, 630);
    assert_eq!(params.h, Some(410));
    assert!(!params.o);
    assert_eq!(params.b, 5);
    assert_eq!(params.q, ImageQuality::High);
}

#[test]
fn empty_query_takes_the_defaults() {
    let config = Config::default();
    let params = ResizeParams::from_url("https://img.example.com/photo.jpg", &config).unwrap();
    assert_eq!(
        params,
        ResizeParams {
            t: TransformMode::Fit,
            w: 640,
            h: None,
            o: false,
            b: 0,
            q: ImageQuality::High,
        }
    );
}

#[test]
fn malformed_url_is_the_only_failure() {
    let config = Config::default();
    assert_eq!(
        ResizeParams::from_url("not a url", &config),
        Err("Failed to parse URL".to_string())
    );
    assert_eq!(ResizeParams::from_url("", &config), Err("Failed to parse URL".to_string()));
    assert_eq!(
        ResizeParams::from_url("/photo.jpg?w=100", &config),
        Err("Failed to parse URL".to_string())
    );
    assert!(ResizeParams::from_url("https://h/p.jpg?w=abc&h=&b=-1&q=zzz&t=9", &config).is_ok());
}

#[test]
fn width_is_rounded_and_clamped() {
    let config = Config::default();
    let w = |value: &str| ResizeParams::from_query(&pairs(&[("w", value)]), &config).w;
    assert_eq!(w("634"), 630);
    assert_eq!(w("635"), 640);
    assert_eq!(w("1"), 100);
    assert_eq!(w("99999"), 4100);
    assert_eq!(w("4294967295"), 4100);
    assert_eq!(w("+300"), 300);
}

#[test]
fn unparseable_width_takes_the_default_unclamped() {
    let mut config = Config::default();
    config.default_width = 7;
    let w = |value: &str| ResizeParams::from_query(&pairs(&[("w", value)]), &config).w;
    assert_eq!(w("abc"), 7);
    assert_eq!(w(""), 7);
    assert_eq!(w("-3"), 7);
    assert_eq!(w("4294967296"), 7);
    assert_eq!(ResizeParams::from_query(&pairs(&[]), &config).w, 7);
}

#[test]
fn height_is_rounded_and_clamped_or_left_open() {
    let config = Config::default();
    let h = |value: &str| ResizeParams::from_query(&pairs(&[("h", value)]), &config).h;
    assert_eq!(h("414"), Some(410));
    assert_eq!(h("415"), Some(420));
    assert_eq!(h("3"), Some(100));
    assert_eq!(h("5000"), Some(4100));
    assert_eq!(h("tall"), None);
    assert_eq!(h(""), None);
    assert_eq!(ResizeParams::from_query(&pairs(&[]), &config).h, None);
}

#[test]
fn bounds_come_from_the_configuration() {
    let mut config = Config::default();
    config.rounding_value = 100;
    config.min_width = 200;
    config.max_width = 1000;
    config.min_height = 300;
    config.max_height = 900;
    let params = ResizeParams::from_query(&pairs(&[("w", "149"), ("h", "2000")]), &config);
    assert_eq!(params.w, 200);
    assert_eq!(params.h, Some(900));
    let params = ResizeParams::from_query(&pairs(&[("w", "650"), ("h", "649")]), &config);
    assert_eq!(params.w, 700);
    assert_eq!(params.h, Some(600));
}

#[test]
fn blur_is_pinned_to_fifty_and_never_rounded() {
    let mut config = Config::default();
    config.rounding_value = 10;
    let b = |value: &str| ResizeParams::from_query(&pairs(&[("b", value)]), &config).b;
    assert_eq!(b("0"), 0);
    assert_eq!(b("1"), 1);
    assert_eq!(b("5"), 5);
    assert_eq!(b("37"), 37);
    assert_eq!(b("50"), 50);
    assert_eq!(b("51"), 50);
    assert_eq!(b("255"), 50);
}

#[test]
fn blur_beyond_a_byte_counts_as_absent() {
    let config = Config::default();
    let b = |value: &str| ResizeParams::from_query(&pairs(&[("b", value)]), &config).b;
    assert_eq!(b("256"), 0);
    assert_eq!(b("1000"), 0);
    assert_eq!(b("-1"), 0);
    assert_eq!(b("x"), 0);
}

#[test]
fn original_is_asked_for_by_the_literal_true() {
    let config = Config::default();
    let o = |value: &str| ResizeParams::from_query(&pairs(&[("o", value)]), &config).o;
    assert!(o("true"));
    assert!(!o("True"));
    assert!(!o("1"));
    assert!(!o(""));
    assert!(!o("false"));
    assert!(!ResizeParams::from_query(&pairs(&[]), &config).o);
}

#[test]
fn mode_and_quality_fall_back_to_the_configuration() {
    let mut config = Config::default();
    config.default_transform = TransformMode::Crop;
    config.default_quality = ImageQuality::Low;
    let params = ResizeParams::from_query(&pairs(&[("t", "zoom"), ("q", "ultra")]), &config);
    assert_eq!(params.t, TransformMode::Crop);
    assert_eq!(params.q, ImageQuality::Low);
    let params = ResizeParams::from_query(&pairs(&[("t", "fit"), ("q", "best")]), &config);
    assert_eq!(params.t, TransformMode::Fit);
    assert_eq!(params.q, ImageQuality::Best);
    let params = ResizeParams::from_query(&pairs(&[("t", "f"), ("q", "m")]), &config);
    assert_eq!(params.t, TransformMode::Fit);
    assert_eq!(params.q, ImageQuality::Medium);
}

#[test]
fn later_value_of_a_repeated_name_counts() {
    let config = Config::default();
    let params = ResizeParams::from_query(&pairs(&[("w", "200"), ("w", "300")]), &config);
    assert_eq!(params.w, 300);
    let params = ResizeParams::from_url("https://h/p.jpg?w=200&w=300&w=oops", &config).unwrap();
    assert_eq!(params.w, 640);
    let list = pairs(&[("a", "1"), ("b", "2"), ("a", "3")]);
    assert_eq!(find_value(&list, "a"), Some(&"3".to_string()));
    assert_eq!(find_value(&list, "b"), Some(&"2".to_string()));
    assert_eq!(find_value(&list, "c"), None);
}

#[test]
fn query_values_are_percent_decoded() {
    let config = Config::default();
    let params = ResizeParams::from_url("https://h/p.jpg?t=%63rop&w=%2B300&o=tr%75e", &config).unwrap();
    assert_eq!(params.t, TransformMode::Crop);
    assert_eq!(params.w, 300);
    assert!(params.o);
}

#[test]
fn other_names_are_ignored() {
    let config = Config::default();
    let params =
        ResizeParams::from_url("https://h/p.jpg?width=900&W=900&x=1&q=l#w=900", &config).unwrap();
    assert_eq!(params.w, 640);
    assert_eq!(params.q, ImageQuality::Low);
}

#[test]
fn resolved_numbers_lie_within_the_configured_bounds() {
    let config = Config::default();
    for value in (0u32..9000).step_by(13) {
        let text = value.to_string();
        let params =
            ResizeParams::from_query(&pairs(&[("w", &text), ("h", &text), ("b", &text)]), &config);
        assert!(config.min_width <= params.w && params.w <= config.max_width);
        let h = params.h.unwrap();
        assert!(config.min_height <= h && h <= config.max_height);
        assert!(params.b <= 50);
    }
}
