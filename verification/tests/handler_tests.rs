use image_resize::handler::content_type_or;
use image_resize::{
    plan_request, step, Config, HandlerAction, HandlerError, HandlerEvent, HandlerState,
    ImageFormat, ImageQuality, RequestPlan, ResizeParams, TransformMode, TransformPlan,
};

const SOURCE: &str = "https://store.example/photos/2024/cat.jpg?X-Token=abc";

fn transform(plan: Result<RequestPlan, HandlerError>) -> TransformPlan {
    match plan {
        Ok(RequestPlan::Transform(plan)) => plan,
        _ => panic!("a transform was expected"),
    }
}

fn passes_through(plan: Result<RequestPlan, HandlerError>) -> bool {
    matches!(plan, Ok(RequestPlan::PassThrough))
}

fn error(plan: Result<RequestPlan, HandlerError>) -> Option<HandlerError> {
    plan.err()
}

#[test]
fn plans_the_documented_request() {
    let config = Config::default();
    let plan = transform(plan_request(
        "https://img.example/photos/2024/cat.jpg?t=c&w=630&h=410&b=5&q=h",
        SOURCE,
        &config,
    ));
    assert_eq!(
        plan.params,
        ResizeParams {
            t: TransformMode::Crop,
            w: 630,
            h: Some(410),
            o: false,
            b: 5,
            q: ImageQuality::High,
        }
    );
    assert_eq!(plan.format, ImageFormat::Jpeg);
    assert_eq!(
        plan.key,
        "/photos/2024/eyJ3Ijo2MzAsImgiOjQxMCwibSI6ImMiLCJxIjoiaCIsImIiOjV9/cat.jpg"
    );
    assert_eq!(plan.default_content_type, "image/jpg");
}

#[test]
fn original_goes_out_where_it_is_asked_for() {
    let config = Config::default();
    assert!(passes_through(plan_request("https://img.example/cat.jpg?o=true&w=200", SOURCE, &config)));
    assert!(passes_through(plan_request("https://img.example/cat?o=true", SOURCE, &config)));
    assert!(passes_through(plan_request("https://img.example/cat.jpg?o=true", "nowhere", &config)));
}

#[test]
fn original_goes_out_where_the_extension_is_not_accepted() {
    let config = Config::default();
    assert!(passes_through(plan_request("https://img.example/doc.pdf?w=200", SOURCE, &config)));
    assert!(passes_through(plan_request("https://img.example/cat.JPG?w=200", SOURCE, &config)));
    assert!(passes_through(plan_request("https://img.example/cat.?w=200", SOURCE, &config)));
}

#[test]
fn request_that_does_not_parse_cannot_be_served() {
    let config = Config::default();
    assert_eq!(
        error(plan_request("cat.jpg?w=200", SOURCE, &config)),
        Some(HandlerError::InvalidParameters)
    );
}

#[test]
fn request_without_extension_cannot_be_served() {
    let config = Config::default();
    assert_eq!(
        error(plan_request("https://img.example/cat?w=200", SOURCE, &config)),
        Some(HandlerError::MissingExtension)
    );
    assert_eq!(
        error(plan_request("https://img.example/?w=200", SOURCE, &config)),
        Some(HandlerError::MissingExtension)
    );
}

#[test]
fn trailing_slash_does_not_hide_the_extension() {
    let config = Config::default();
    let plan = transform(plan_request("https://img.example/a/cat.png/?w=200", SOURCE, &config));
    assert_eq!(plan.format, ImageFormat::Png);
    assert_eq!(plan.default_content_type, "image/png");
}

#[test]
fn accepted_extension_must_name_a_format() {
    let mut config = Config::default();
    config.valid_extensions = vec!["png".to_string(), "tiff".to_string(), "".to_string()];
    assert_eq!(
        error(plan_request("https://img.example/scan.tiff?w=200", SOURCE, &config)),
        Some(HandlerError::UnknownImageFormat)
    );
    assert_eq!(
        error(plan_request("https://img.example/scan.?w=200", SOURCE, &config)),
        Some(HandlerError::UnknownImageFormat)
    );
    let plan = transform(plan_request("https://img.example/scan.png?w=200", SOURCE, &config));
    assert_eq!(plan.format, ImageFormat::Png);
    assert_eq!(plan.default_content_type, "image/png");
}

#[test]
fn original_must_yield_a_key() {
    let config = Config::default();
    assert_eq!(
        error(plan_request("https://img.example/cat.jpg?w=200", "not a url", &config)),
        Some(HandlerError::MissingKey)
    );
    assert_eq!(
        error(plan_request("https://img.example/cat.jpg?w=200", "https://store.example/cat", &config)),
        Some(HandlerError::MissingKey)
    );
}

#[test]
fn key_is_derived_from_the_original_and_the_resolved_request() {
    let config = Config::default();
    let first = transform(plan_request("https://img.example/x/cat.png?w=634", SOURCE, &config));
    let second = transform(plan_request("https://img.example/y/dog.png?w=630&q=high", SOURCE, &config));
    assert_eq!(first.params.w, 630);
    assert_eq!(first.key, second.key);
    let third = transform(plan_request("https://img.example/x/cat.png?w=640", SOURCE, &config));
    assert_ne!(first.key, third.key);
}

#[test]
fn content_type_falls_back() {
    assert_eq!(content_type_or(Some("image/png".to_string()), "application/octet-stream"), "image/png");
    assert_eq!(content_type_or(None, "application/octet-stream"), "application/octet-stream");
    assert_eq!(content_type_or(None, "image/jpg"), "image/jpg");
}

fn sample_plan() -> TransformPlan {
    TransformPlan {
        params: ResizeParams {
            t: TransformMode::Crop,
            w: 630,
            h: Some(410),
            o: false,
            b: 5,
            q: ImageQuality::High,
        },
        format: ImageFormat::Jpeg,
        key: "/photos/abc/cat.jpg".to_string(),
        default_content_type: "image/jpg".to_string(),
    }
}

fn fetched(content_type: Option<&str>) -> HandlerEvent {
    HandlerEvent::OriginalFetched { content_type: content_type.map(String::from) }
}

fn looking_up(content_type: Option<&str>) -> HandlerState {
    let (state, _) = step(
        HandlerState::Planned(RequestPlan::Transform(sample_plan())),
        fetched(content_type),
    );
    state
}

#[test]
fn original_is_sent_with_its_content_type() {
    let (state, action) = step(HandlerState::Planned(RequestPlan::PassThrough), fetched(Some("image/png")));
    assert!(matches!(state, HandlerState::Done));
    match action {
        HandlerAction::SendOriginal { content_type } => assert_eq!(content_type, "image/png"),
        _ => panic!("the original was to be sent"),
    }
}

#[test]
fn original_without_content_type_is_sent_as_arbitrary_bytes() {
    let (_, action) = step(HandlerState::Planned(RequestPlan::PassThrough), fetched(None));
    match action {
        HandlerAction::SendOriginal { content_type } => {
            assert_eq!(content_type, "application/octet-stream")
        }
        _ => panic!("the original was to be sent"),
    }
}

#[test]
fn transform_asks_the_store_first() {
    let (state, action) = step(
        HandlerState::Planned(RequestPlan::Transform(sample_plan())),
        fetched(Some("image/jpeg")),
    );
    match action {
        HandlerAction::LookUp { key } => assert_eq!(key, "/photos/abc/cat.jpg"),
        _ => panic!("the store was to be asked"),
    }
    match state {
        HandlerState::LookingUp { plan, content_type } => {
            assert_eq!(plan.key, "/photos/abc/cat.jpg");
            assert_eq!(plan.params, sample_plan().params);
            assert_eq!(content_type, Some("image/jpeg".to_string()));
        }
        _ => panic!("the lookup was to be awaited"),
    }
}

#[test]
fn stored_result_is_sent_with_its_content_type_or_that_of_the_extension() {
    let hit = HandlerEvent::CacheHit { content_type: Some("image/webp".to_string()) };
    let (state, action) = step(looking_up(Some("image/jpeg")), hit);
    assert!(matches!(state, HandlerState::Done));
    match action {
        HandlerAction::SendCached { content_type } => assert_eq!(content_type, "image/webp"),
        _ => panic!("the stored result was to be sent"),
    }
    let (_, action) = step(looking_up(Some("image/jpeg")), HandlerEvent::CacheHit { content_type: None });
    match action {
        HandlerAction::SendCached { content_type } => assert_eq!(content_type, "image/jpg"),
        _ => panic!("the stored result was to be sent"),
    }
}

#[test]
fn missing_result_is_made_under_the_content_type_of_the_original() {
    let (state, action) = step(looking_up(Some("image/jpeg")), HandlerEvent::CacheMiss);
    assert!(matches!(state, HandlerState::Done));
    match action {
        HandlerAction::TransformAndStore { params, format, key, content_type } => {
            assert_eq!(params, sample_plan().params);
            assert_eq!(format, ImageFormat::Jpeg);
            assert_eq!(key, "/photos/abc/cat.jpg");
            assert_eq!(content_type, "image/jpeg");
        }
        _ => panic!("the result was to be made"),
    }
    let (_, action) = step(looking_up(None), HandlerEvent::CacheMiss);
    match action {
        HandlerAction::TransformAndStore { content_type, .. } => assert_eq!(content_type, "image/jpg"),
        _ => panic!("the result was to be made"),
    }
}

#[test]
fn events_out_of_turn_end_the_handling() {
    let (state, action) = step(HandlerState::Planned(RequestPlan::PassThrough), HandlerEvent::CacheMiss);
    assert!(matches!(state, HandlerState::Done));
    assert!(matches!(action, HandlerAction::Nothing));
    let (state, action) = step(
        HandlerState::Planned(RequestPlan::Transform(sample_plan())),
        HandlerEvent::CacheHit { content_type: None },
    );
    assert!(matches!(state, HandlerState::Done));
    assert!(matches!(action, HandlerAction::Nothing));
    let (state, action) = step(looking_up(None), fetched(None));
    assert!(matches!(state, HandlerState::Done));
    assert!(matches!(action, HandlerAction::Nothing));
    let (state, action) = step(HandlerState::Done, HandlerEvent::CacheMiss);
    assert!(matches!(state, HandlerState::Done));
    assert!(matches!(action, HandlerAction::Nothing));
}
