//! What to do with a request: hand the original through, or transform it
//! and keep the result under its key. The plan is made before anything is
//! fetched; after that every fetch is answered with the next thing to do.
//! Fetching, storing and sending are left to the caller.

use vstd::prelude::*;
use crate::cache_key::{get_resized_image_key, request_key};
use crate::config::Config;
use crate::params::resolved;
use crate::text::{string_from_chars, to_chars};
use crate::types::{ImageFormat, ResizeParams};
use crate::urls::{get_file_extension, path_extension, url_path, url_query_pairs};

verus! {

/// Why a request cannot be served at all.
#[derive(Debug, Clone, Copy, PartialEq, Eq, Structural)]
pub enum HandlerError {
    /// The request URL does not parse.
    InvalidParameters,
    /// The path of the request URL has no file extension.
    MissingExtension,
    /// The extension is accepted but names no format that can be decoded.
    UnknownImageFormat,
    /// The URL of the original yields no storage key.
    MissingKey,
}

/// A transform to carry out, with all that the steps around it need.
pub struct TransformPlan {
    pub params: ResizeParams,
    /// The declared format of the original.
    pub format: ImageFormat,
    /// Where the result is kept.
    pub key: String,
    /// The content type to answer with where the store names none.
    pub default_content_type: String,
}

pub enum RequestPlan {
    /// Send the original as it is.
    PassThrough,
    Transform(TransformPlan),
}

/// A plan with its texts as character sequences.
pub enum PlanText {
    PassThrough,
    Transform {
        params: ResizeParams,
        format: ImageFormat,
        key: Seq<char>,
        default_content_type: Seq<char>,
    },
}

impl RequestPlan {
    pub open spec fn text(&self) -> PlanText {
        match self {
            RequestPlan::PassThrough => PlanText::PassThrough,
            RequestPlan::Transform(plan) => PlanText::Transform {
                params: plan.params,
                format: plan.format,
                key: plan.key@,
                default_content_type: plan.default_content_type@,
            },
        }
    }
}

/// The content type of an image with the given extension: `image/` and the
/// extension, or `image/*` where the extension is empty.
pub open spec fn image_content_type(ext: Seq<char>) -> Seq<char> {
    "image/"@ + if ext.len() == 0 {
        "*"@
    } else {
        ext
    }
}

/// The plan for a request. The original goes out untouched where the request
/// asks for it or where its extension is not among the accepted ones.
/// Everything else is transformed, which takes a known format and a key.
pub open spec fn request_plan(user_url: Seq<char>, source_url: Seq<char>, config: &Config) -> Result<
    PlanText,
    HandlerError,
> {
    match url_query_pairs(user_url) {
        None => Err(HandlerError::InvalidParameters),
        Some(pairs) => {
            let params = resolved(pairs, config);
            if params.o {
                Ok(PlanText::PassThrough)
            } else {
                match extension_in(user_url) {
                    None => Err(HandlerError::MissingExtension),
                    Some(ext) => if !config.extensions().contains(ext) {
                        Ok(PlanText::PassThrough)
                    } else {
                        match ImageFormat::of_extension(ext) {
                            None => Err(HandlerError::UnknownImageFormat),
                            Some(format) => match key_in(source_url, &params, config) {
                                None => Err(HandlerError::MissingKey),
                                Some(key) => Ok(
                                    PlanText::Transform {
                                        params,
                                        format,
                                        key,
                                        default_content_type: image_content_type(ext),
                                    },
                                ),
                            },
                        }
                    },
                }
            }
        },
    }
}

/// The file extension in the path of a URL.
pub open spec fn extension_in(url: Seq<char>) -> Option<Seq<char>> {
    match url_path(url) {
        Some(path) => path_extension(path),
        None => None,
    }
}

/// The key of a transform of the object that a URL points at.
pub open spec fn key_in(url: Seq<char>, params: &ResizeParams, config: &Config) -> Option<Seq<char>> {
    match url_path(url) {
        Some(path) => request_key(path, params, config),
        None => None,
    }
}

fn content_type_for(ext: &str) -> (content_type: String)
    ensures
        content_type@ == image_content_type(ext@),
{
    let mut text = to_chars("image/");
    let rest = if ext.is_empty() {
        to_chars("*")
    } else {
        to_chars(ext)
    };
    let ghost head = text@;
    let mut i: usize = 0;
    while i < rest.len()
        invariant
            i <= rest@.len(),
            text@ == head + rest@.take(i as int),
        decreases rest@.len() - i,
    {
        text.push(rest[i]);
        assert(text@ =~= head + rest@.take(i + 1));
        i += 1;
    }
    assert(rest@.take(i as int) =~= rest@);
    string_from_chars(text.as_slice())
}

/// Plans the answer to a request for `user_url`, the original of which is
/// found at `source_url`.
pub fn plan_request(user_url: &str, source_url: &str, config: &Config) -> (plan: Result<
    RequestPlan,
    HandlerError,
>)
    ensures
        match plan {
            Ok(p) => request_plan(user_url@, source_url@, config) == Ok::<PlanText, HandlerError>(
                p.text(),
            ),
            Err(e) => request_plan(user_url@, source_url@, config) == Err::<PlanText, HandlerError>(
                e,
            ),
        },
{
    let params = match ResizeParams::from_url(user_url, config) {
        Ok(params) => params,
        Err(_) => {
            return Err(HandlerError::InvalidParameters);
        },
    };
    if params.o {
        return Ok(RequestPlan::PassThrough);
    }
    let ext = match get_file_extension(user_url) {
        Some(ext) => ext,
        None => {
            return Err(HandlerError::MissingExtension);
        },
    };
    if !config.accepts_extension(ext.as_str()) {
        return Ok(RequestPlan::PassThrough);
    }
    let format = match ImageFormat::from_extension(ext.as_str()) {
        Some(format) => format,
        None => {
            return Err(HandlerError::UnknownImageFormat);
        },
    };
    let key = match get_resized_image_key(source_url, &params, config) {
        Some(key) => key,
        None => {
            return Err(HandlerError::MissingKey);
        },
    };
    let default_content_type = content_type_for(ext.as_str());
    Ok(RequestPlan::Transform(TransformPlan { params, format, key, default_content_type }))
}

/// The content type of bytes whose kind nobody named.
pub open spec fn any_content() -> Seq<char> {
    "application/octet-stream"@
}

/// The content type to answer with: the one that came with the bytes, else
/// the fallback.
pub open spec fn chosen_type(given: Option<String>, fallback: Seq<char>) -> Seq<char> {
    match given {
        Some(text) => text@,
        None => fallback,
    }
}

pub fn content_type_or(content_type: Option<String>, fallback: &str) -> (chosen: String)
    ensures
        chosen@ == chosen_type(content_type, fallback@),
{
    match content_type {
        Some(given) => given,
        None => fallback.to_owned(),
    }
}

/// Where the handling of a request stands.
pub enum HandlerState {
    /// The plan is made and the original is being fetched.
    Planned(RequestPlan),
    /// The original is at hand, with the content type it came with, and the
    /// store is being asked for an earlier result.
    LookingUp { plan: TransformPlan, content_type: Option<String> },
    /// The answer is decided.
    Done,
}

/// What came back from the outside.
pub enum HandlerEvent {
    OriginalFetched { content_type: Option<String> },
    CacheHit { content_type: Option<String> },
    CacheMiss,
}

/// What to do next.
pub enum HandlerAction {
    /// Send the original as it is.
    SendOriginal { content_type: String },
    /// Ask the store for the object at the key.
    LookUp { key: String },
    /// Send what the store had.
    SendCached { content_type: String },
    /// Transform the original, then store the result under the key and send
    /// it; the request is served only if both succeed.
    TransformAndStore { params: ResizeParams, format: ImageFormat, key: String, content_type: String },
    /// The event does not belong to the state: nothing is to be done.
    Nothing,
}

/// How a state answers an event. The original of a pass-through plan is sent
/// on with its own content type, or as arbitrary bytes. For a transform the
/// store is asked first: what it has is sent with its content type, else
/// with the one that the extension gives; what it lacks is made, under the
/// content type of the original, else the one that the extension gives.
pub open spec fn steps_to(
    state: HandlerState,
    event: HandlerEvent,
    next: HandlerState,
    action: HandlerAction,
) -> bool {
    match (state, event) {
        (
            HandlerState::Planned(RequestPlan::PassThrough),
            HandlerEvent::OriginalFetched { content_type },
        ) => {
            &&& next is Done
            &&& action matches HandlerAction::SendOriginal { content_type: chosen }
            &&& chosen@ == chosen_type(content_type, any_content())
        },
        (
            HandlerState::Planned(RequestPlan::Transform(plan)),
            HandlerEvent::OriginalFetched { content_type },
        ) => {
            &&& next matches HandlerState::LookingUp { plan: kept, content_type: kept_type }
            &&& kept == plan
            &&& kept_type == content_type
            &&& action matches HandlerAction::LookUp { key }
            &&& key@ == plan.key@
        },
        (HandlerState::LookingUp { plan, content_type }, HandlerEvent::CacheHit { content_type: cached }) => {
            &&& next is Done
            &&& action matches HandlerAction::SendCached { content_type: chosen }
            &&& chosen@ == chosen_type(cached, plan.default_content_type@)
        },
        (HandlerState::LookingUp { plan, content_type }, HandlerEvent::CacheMiss) => {
            &&& next is Done
            &&& action matches HandlerAction::TransformAndStore {
                params,
                format,
                key,
                content_type: chosen,
            }
            &&& params == plan.params
            &&& format == plan.format
            &&& key@ == plan.key@
            &&& chosen@ == chosen_type(content_type, plan.default_content_type@)
        },
        _ => next is Done && action is Nothing,
    }
}

/// Takes the handling of a request one step further.
pub fn step(state: HandlerState, event: HandlerEvent) -> (result: (HandlerState, HandlerAction))
    ensures
        steps_to(state, event, result.0, result.1),
{
    match state {
        HandlerState::Planned(RequestPlan::PassThrough) => match event {
            HandlerEvent::OriginalFetched { content_type } => {
                let chosen = content_type_or(content_type, "application/octet-stream");
                (HandlerState::Done, HandlerAction::SendOriginal { content_type: chosen })
            },
            _ => (HandlerState::Done, HandlerAction::Nothing),
        },
        HandlerState::Planned(RequestPlan::Transform(plan)) => match event {
            HandlerEvent::OriginalFetched { content_type } => {
                let key = plan.key.clone();
                (HandlerState::LookingUp { plan, content_type }, HandlerAction::LookUp { key })
            },
            _ => (HandlerState::Done, HandlerAction::Nothing),
        },
        HandlerState::LookingUp { plan, content_type } => match event {
            HandlerEvent::CacheHit { content_type: cached } => {
                let chosen = content_type_or(cached, plan.default_content_type.as_str());
                (HandlerState::Done, HandlerAction::SendCached { content_type: chosen })
            },
            HandlerEvent::CacheMiss => {
                let chosen = content_type_or(content_type, plan.default_content_type.as_str());
                (
                    HandlerState::Done,
                    HandlerAction::TransformAndStore {
                        params: plan.params,
                        format: plan.format,
                        key: plan.key,
                        content_type: chosen,
                    },
                )
            },
            _ => (HandlerState::Done, HandlerAction::Nothing),
        },
        HandlerState::Done => (HandlerState::Done, HandlerAction::Nothing),
    }
}

} // verus!
