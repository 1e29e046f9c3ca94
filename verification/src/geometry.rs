//! Target dimensions and the crop window, from the request and the size of
//! the source image.

use vstd::prelude::*;
use crate::config::Config;
use crate::types::{ResizeError, ResizeParams, TransformMode};

verus! {

/// The height that keeps the proportions of a `src_width` by `src_height`
/// source at the given width: `width * src_height / src_width`, rounded to
/// the nearest whole number with halves going up, and no larger than
/// `u32::MAX`. A source without width has no proportions: the result is then
/// zero, or `u32::MAX` where both the width asked for and the source height
/// are positive.
pub open spec fn proportional_height(width: int, src_width: int, src_height: int) -> int {
    if src_width <= 0 {
        if width == 0 || src_height == 0 {
            0
        } else {
            u32::MAX as int
        }
    } else {
        let exact = (2 * (width * src_height) + src_width) / (2 * src_width);
        if exact > u32::MAX {
            u32::MAX as int
        } else {
            exact
        }
    }
}

/// The height of the output: the one asked for; else, in fit mode, the one
/// that keeps the proportions of the source, and in crop mode the configured
/// default, whatever the source looks like.
pub open spec fn target_height(
    params: &ResizeParams,
    src_width: u32,
    src_height: u32,
    config: &Config,
) -> int {
    match params.h {
        Some(height) => height as int,
        None => match params.t {
            TransformMode::Fit => proportional_height(
                params.w as int,
                src_width as int,
                src_height as int,
            ),
            TransformMode::Crop => config.default_height as int,
        },
    }
}

fn scale_height(width: u32, src_width: u32, src_height: u32) -> (height: u32)
    ensures
        height == proportional_height(width as int, src_width as int, src_height as int),
{
    if src_width == 0 {
        return if width == 0 || src_height == 0 {
            0
        } else {
            u32::MAX
        };
    }
    assert(width * src_height <= 0xffff_ffff * 0xffff_ffff) by (nonlinear_arith)
        requires
            width <= 0xffff_ffff,
            src_height <= 0xffff_ffff,
    ;
    let product: u128 = (width as u128) * (src_height as u128);
    let exact: u128 = (2 * product + src_width as u128) / (2 * (src_width as u128));
    if exact > u32::MAX as u128 {
        u32::MAX
    } else {
        exact as u32
    }
}

/// Resolves the output dimensions of a request against a source image.
pub fn resolve_size(params: &ResizeParams, src_width: u32, src_height: u32, config: &Config) -> (size:
    (u32, u32))
    ensures
        size.0 == params.w,
        size.1 == target_height(params, src_width, src_height, config),
{
    let height: u32 = match params.h {
        Some(height) => height,
        None => match params.t {
            TransformMode::Fit => scale_height(params.w, src_width, src_height),
            TransformMode::Crop => config.default_height,
        },
    };
    (params.w, height)
}

/// Left and top edge of the window of the given size that sits in the middle
/// of the source, an odd pixel going to the right and the bottom.
pub open spec fn centered_window(src_width: u32, src_height: u32, width: u32, height: u32) -> (
    int,
    int,
) {
    ((src_width - width) / 2, (src_height - height) / 2)
}

/// Places the crop window. A window that is wider or taller than the source
/// is refused.
pub fn crop_window(src_width: u32, src_height: u32, width: u32, height: u32) -> (window: Result<
    (u32, u32),
    ResizeError,
>)
    ensures
        match window {
            Ok(corner) => width <= src_width && height <= src_height && (
            corner.0 as int,
            corner.1 as int,
            ) == centered_window(src_width, src_height, width, height) && corner.0 + width
                <= src_width && corner.1 + height <= src_height,
            Err(e) => e == ResizeError::CropExceedsSource && (width > src_width || height
                > src_height),
        },
{
    if width > src_width || height > src_height {
        Err(ResizeError::CropExceedsSource)
    } else {
        Ok(((src_width - width) / 2, (src_height - height) / 2))
    }
}

/// The proportional height is the whole number nearest to
/// `width * src_height / src_width`: it misses that quotient by half a pixel
/// at most, unless it is capped.
pub proof fn lemma_proportional_height_is_nearest(width: u32, src_width: u32, src_height: u32)
    requires
        src_width >= 1,
        proportional_height(width as int, src_width as int, src_height as int) < u32::MAX,
    ensures
        ({
            let height = proportional_height(width as int, src_width as int, src_height as int);
            -src_width < 2 * (height * src_width - width * src_height) <= src_width
        }),
{
    let n = 2 * (width * src_height) + src_width;
    let d = 2 * src_width;
    let height = proportional_height(width as int, src_width as int, src_height as int);
    assert(height == n / d);
    vstd::arithmetic::div_mod::lemma_fundamental_div_mod(n, d);
    vstd::arithmetic::div_mod::lemma_mod_bound(n, d);
    assert(d * height == 2 * (height * src_width)) by (nonlinear_arith)
        requires
            d == 2 * src_width,
    ;
}

/// In crop mode the height of the output does not depend on the source.
pub proof fn lemma_crop_height_ignores_source(
    params: ResizeParams,
    first: (u32, u32),
    second: (u32, u32),
    config: &Config,
)
    requires
        params.t == TransformMode::Crop,
    ensures
        target_height(&params, first.0, first.1, config) == target_height(
            &params,
            second.0,
            second.1,
            config,
        ),
        params.h is None ==> target_height(&params, first.0, first.1, config)
            == config.default_height,
{
}

} // verus!
