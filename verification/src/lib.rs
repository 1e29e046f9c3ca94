//! Image transformation driven by request parameters: parameter resolution,
//! decoding, geometry, resampling, blur, encoding, and the derivation of the
//! storage key under which a transformed image is cached.

pub mod base64;
pub mod cache_key;
pub mod codec;
pub mod config;
pub mod geometry;
pub mod handler;
pub mod limit;
pub mod params;
pub mod pipeline;
pub mod text;
pub mod types;
pub mod urls;

pub use crate::cache_key::{
    derive_key, get_resized_image_key, split_path, ImageProcessParams, PathParts,
};
pub use crate::codec::{
    BlurThreads, FitAnchor, ImageShape, PixelLayout, PngCompression, PngFilter, ScaleFilter,
};
pub use crate::config::{Config, RawConfig};
pub use crate::geometry::{crop_window, resolve_size};
pub use crate::handler::{
    plan_request, step, HandlerAction, HandlerError, HandlerEvent, HandlerState, RequestPlan,
    TransformPlan,
};
pub use crate::limit::{clamp_and_round, limit};
pub use crate::pipeline::{
    apply_blur, decode, encode, get_jpeg_quality, get_png_quality, resize_image,
    resize_multi_pages, resize_single_page, DecodedImage,
};
pub use crate::types::{ImageFormat, ImageQuality, ResizeError, ResizeParams, TransformMode};
pub use crate::urls::{get_file_extension, get_url_path};
