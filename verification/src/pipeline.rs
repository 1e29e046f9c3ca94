//! The transform itself: decode, resolve the geometry, resample, blur,
//! encode. Every stage hands its result to the next; an error at any stage
//! ends the transform, and no partial image is ever returned.

use vstd::prelude::*;
use crate::codec::{
    addressable,
    buffer_len,
    bytes_of,
    decode_as,
    decoded_shape,
    encode_jpeg,
    encode_png,
    encode_webp_lossless,
    fillable,
    fits_within,
    fittable,
    fitted_side,
    gif_encoded,
    gif_screen,
    has_gif_header,
    holds_its_pixels,
    image_bytes,
    image_shape,
    jpeg_encoded,
    png_encoded,
    resample_crop,
    resample_fit,
    scale_to_fill,
    scale_to_fit,
    shape_of,
    sniff,
    sniffed_format,
    stack_blur,
    webp_lossless,
    window_bytes,
    writable_as_gif,
    write_gif,
    BlurThreads,
    FitAnchor,
    ImageShape,
    PixelLayout,
    PngCompression,
    PngFilter,
    ScaleFilter,
};
use crate::config::Config;
use crate::geometry::{centered_window, crop_window, resolve_size, target_height};
use crate::types::{ImageFormat, ImageQuality, ResizeError, ResizeParams, TransformMode};

verus! {

/// A decoded image: the pixels as the decoder left them, what it reported of
/// them, and the format they were decoded as. An image is only made by
/// decoding, and it always has pixels.
pub struct DecodedImage {
    raw: image::DynamicImage,
    shape: ImageShape,
    format: ImageFormat,
}

impl DecodedImage {
    #[verifier::type_invariant]
    spec fn well_formed(self) -> bool {
        &&& self.shape == image_shape(self.raw)
        &&& holds_its_pixels(self.raw)
        &&& self.shape.width >= 1
        &&& self.shape.height >= 1
        &&& 1 <= self.shape.layout.channels <= 4
        &&& self.shape.layout.channels <= self.shape.layout.bytes_per_pixel <= 16
    }

    /// Width, height and pixel layout.
    pub closed spec fn shape(&self) -> ImageShape {
        self.shape
    }

    /// The format that the bytes were decoded as.
    pub closed spec fn source_format(&self) -> ImageFormat {
        self.format
    }

    /// The bytes of the pixels, row by row from the top.
    pub closed spec fn pixels(&self) -> Seq<u8> {
        image_bytes(self.raw)
    }

    pub fn width(&self) -> (w: u32)
        ensures
            w == self.shape().width,
            w >= 1,
    {
        proof {
            use_type_invariant(self);
        }
        self.shape.width
    }

    pub fn height(&self) -> (h: u32)
        ensures
            h == self.shape().height,
            h >= 1,
    {
        proof {
            use_type_invariant(self);
        }
        self.shape.height
    }

    pub fn layout(&self) -> (layout: PixelLayout)
        ensures
            layout == self.shape().layout,
            1 <= layout.channels <= 4,
            layout.channels <= layout.bytes_per_pixel <= 16,
    {
        proof {
            use_type_invariant(self);
        }
        self.shape.layout
    }

    pub fn format(&self) -> (format: ImageFormat)
        ensures
            format == self.source_format(),
    {
        self.format
    }

    /// A copy of the pixels.
    pub fn to_bytes(&self) -> (bytes: Vec<u8>)
        ensures
            bytes@ == self.pixels(),
            bytes@.len() == buffer_len(
                self.shape().width,
                self.shape().height,
                self.shape().layout,
            ),
    {
        proof {
            use_type_invariant(self);
        }
        bytes_of(&self.raw)
    }
}

/// A shape counts where it has pixels.
pub open spec fn usable(shape: Option<ImageShape>) -> Option<ImageShape> {
    match shape {
        Some(s) => if s.width >= 1 && s.height >= 1 {
            Some(s)
        } else {
            None
        },
        None => None,
    }
}

/// What decoding comes to: the declared format is tried first; where the
/// bytes do not decode as that, the format that their signature shows is
/// tried, once. Fewer than twelve bytes show no signature.
pub open spec fn decode_outcome(bytes: Seq<u8>, declared: ImageFormat) -> Option<
    (ImageShape, ImageFormat),
> {
    match usable(decoded_shape(bytes, declared)) {
        Some(shape) => Some((shape, declared)),
        None => if bytes.len() < 12 {
            None
        } else {
            match sniffed_format(bytes) {
                Some(found) => match usable(decoded_shape(bytes, found)) {
                    Some(shape) => Some((shape, found)),
                    None => None,
                },
                None => None,
            }
        },
    }
}

fn try_decode(bytes: &[u8], format: ImageFormat) -> (decoded: Option<DecodedImage>)
    ensures
        match usable(decoded_shape(bytes@, format)) {
            Some(shape) => decoded matches Some(img) && img.shape() == shape && img.source_format()
                == format,
            None => decoded is None,
        },
{
    match decode_as(bytes, format) {
        Some(raw) => {
            let shape = shape_of(&raw);
            if shape.width >= 1 && shape.height >= 1 {
                Some(DecodedImage { raw, shape, format })
            } else {
                None
            }
        },
        None => None,
    }
}

/// Decodes the bytes of an image whose format was declared from outside,
/// falling back on the signature of the bytes where the declaration is
/// wrong.
pub fn decode(bytes: &[u8], format: ImageFormat) -> (result: Result<DecodedImage, ResizeError>)
    ensures
        match decode_outcome(bytes@, format) {
            Some((shape, found)) => result matches Ok(img) && img.shape() == shape
                && img.source_format() == found,
            None => result matches Err(e) && e == ResizeError::UnknownFormat,
        },
{
    match try_decode(bytes, format) {
        Some(img) => Ok(img),
        None => {
            if bytes.len() < 12 {
                return Err(ResizeError::UnknownFormat);
            }
            match sniff(bytes) {
                Some(found) => match try_decode(bytes, found) {
                    Some(img) => Ok(img),
                    None => Err(ResizeError::UnknownFormat),
                },
                None => Err(ResizeError::UnknownFormat),
            }
        },
    }
}

/// Bytes that are declared as one format, do not decode as it, and carry the
/// signature of another decode exactly as they do under the right
/// declaration.
pub proof fn lemma_mislabelled_decodes_as_labelled(
    bytes: Seq<u8>,
    declared: ImageFormat,
    actual: ImageFormat,
)
    requires
        bytes.len() >= 12,
        usable(decoded_shape(bytes, declared)) is None,
        sniffed_format(bytes) == Some(actual),
    ensures
        decode_outcome(bytes, declared) == decode_outcome(bytes, actual),
{
}

/// The JPEG quality setting of a tier.
pub open spec fn jpeg_quality(quality: ImageQuality) -> u8 {
    match quality {
        ImageQuality::Low => 25,
        ImageQuality::Medium => 50,
        ImageQuality::High => 75,
        ImageQuality::Best => 100,
    }
}

/// The PNG compression of a tier.
pub open spec fn png_compression(quality: ImageQuality) -> PngCompression {
    match quality {
        ImageQuality::Low => PngCompression::Default,
        ImageQuality::Medium => PngCompression::Default,
        ImageQuality::High => PngCompression::Fast,
        ImageQuality::Best => PngCompression::Best,
    }
}

pub fn get_png_quality(img_quality: ImageQuality) -> (compression: PngCompression)
    ensures
        compression == png_compression(img_quality),
{
    match img_quality {
        ImageQuality::Low => PngCompression::Default,
        ImageQuality::Medium => PngCompression::Default,
        ImageQuality::High => PngCompression::Fast,
        ImageQuality::Best => PngCompression::Best,
    }
}

pub fn get_jpeg_quality(img_quality: ImageQuality) -> (quality: u8)
    ensures
        quality == jpeg_quality(img_quality),
{
    match img_quality {
        ImageQuality::Low => 25,
        ImageQuality::Medium => 50,
        ImageQuality::High => 75,
        ImageQuality::Best => 100,
    }
}

/// The bytes of a result.
pub open spec fn result_text(result: Result<Vec<u8>, ResizeError>) -> Result<Seq<u8>, ResizeError> {
    match result {
        Ok(bytes) => Ok(bytes@),
        Err(e) => Err(e),
    }
}

/// What encoding comes to. PNG takes its compression from the tier, always
/// with the adaptive row filter, and JPEG its quality setting; WebP is
/// written lossless whatever the tier. A single
/// image is never written as GIF, and a buffer that does not have the size
/// of the image is not encoded.
pub open spec fn encoded(
    pixels: Seq<u8>,
    width: u32,
    height: u32,
    layout: PixelLayout,
    format: ImageFormat,
    quality: ImageQuality,
) -> Result<Seq<u8>, ResizeError> {
    if format == ImageFormat::Gif {
        Err(ResizeError::UnsupportedFormat)
    } else if pixels.len() != buffer_len(width, height, layout) {
        Err(ResizeError::Encode)
    } else {
        let file = match format {
            ImageFormat::Png => png_encoded(
                pixels,
                width,
                height,
                layout,
                png_compression(quality),
                PngFilter::Adaptive,
            ),
            ImageFormat::Jpeg => jpeg_encoded(pixels, width, height, layout, jpeg_quality(quality)),
            _ => webp_lossless(pixels, width, height, layout),
        };
        match file {
            Some(bytes) => Ok(bytes),
            None => Err(ResizeError::Encode),
        }
    }
}

/// A JPEG file is written at the quality setting of its tier, whatever the
/// image: 25, 50, 75 and 100 from the lowest tier to the best.
pub proof fn lemma_jpeg_quality_follows_tier(
    pixels: Seq<u8>,
    width: u32,
    height: u32,
    layout: PixelLayout,
    quality: ImageQuality,
)
    requires
        pixels.len() == buffer_len(width, height, layout),
    ensures
        encoded(pixels, width, height, layout, ImageFormat::Jpeg, quality) == match jpeg_encoded(
            pixels,
            width,
            height,
            layout,
            match quality {
                ImageQuality::Low => 25u8,
                ImageQuality::Medium => 50u8,
                ImageQuality::High => 75u8,
                ImageQuality::Best => 100u8,
            },
        ) {
            Some(file) => Ok::<Seq<u8>, ResizeError>(file),
            None => Err::<Seq<u8>, ResizeError>(ResizeError::Encode),
        },
{
}

fn has_buffer_len(len: usize, width: u32, height: u32, layout: PixelLayout) -> (fits: bool)
    ensures
        fits == (len == buffer_len(width, height, layout)),
{
    assert(width * height <= 0xffff_ffff * 0xffff_ffff) by (nonlinear_arith)
        requires
            width <= 0xffff_ffff,
            height <= 0xffff_ffff,
    ;
    assert(width * height * layout.bytes_per_pixel <= 0xffff_ffff * 0xffff_ffff * 255)
        by (nonlinear_arith)
        requires
            0 <= width * height <= 0xffff_ffff * 0xffff_ffff,
            layout.bytes_per_pixel <= 255,
    ;
    let expected: u128 = (width as u128) * (height as u128) * (layout.bytes_per_pixel as u128);
    len as u128 == expected
}

/// Writes pixels that are laid out like those of `like` as a file of the
/// given format.
pub fn encode(
    pixels: &[u8],
    width: u32,
    height: u32,
    like: &DecodedImage,
    format: ImageFormat,
    quality: ImageQuality,
) -> (result: Result<Vec<u8>, ResizeError>)
    ensures
        result_text(result) == encoded(
            pixels@,
            width,
            height,
            like.shape().layout,
            format,
            quality,
        ),
{
    proof {
        use_type_invariant(like);
    }
    if !has_buffer_len(pixels.len(), width, height, like.shape.layout) {
        return match format {
            ImageFormat::Gif => Err(ResizeError::UnsupportedFormat),
            _ => Err(ResizeError::Encode),
        };
    }
    let file = match format {
        ImageFormat::Png => encode_png(
            pixels,
            width,
            height,
            &like.raw,
            get_png_quality(quality),
            PngFilter::Adaptive,
        ),
        ImageFormat::Jpeg => encode_jpeg(
            pixels,
            width,
            height,
            &like.raw,
            get_jpeg_quality(quality),
        ),
        ImageFormat::Webp => encode_webp_lossless(pixels, width, height, &like.raw),
        ImageFormat::Gif => {
            return Err(ResizeError::UnsupportedFormat);
        },
    };
    match file {
        Some(bytes) => Ok(bytes),
        None => Err(ResizeError::Encode),
    }
}

/// The number of channels that the blur works on: four where the pixels have
/// four, three otherwise.
pub open spec fn blur_channels(layout: PixelLayout) -> int {
    if layout.channels == 4 {
        4
    } else {
        3
    }
}

/// Whether a blur can go ahead. Without a radius, and on an image without
/// pixels, there is nothing to do. Otherwise the pixels must be one byte a
/// channel in three or four channels, the buffer must have the size of the
/// image, and a row must not be longer than `u32::MAX` bytes.
pub open spec fn blur_verdict(len: int, width: u32, height: u32, layout: PixelLayout, radius: u32) -> Result<
    (),
    ResizeError,
> {
    if radius == 0 || width == 0 || height == 0 {
        Ok(())
    } else if layout.bytes_per_pixel != blur_channels(layout) || len != buffer_len(
        width,
        height,
        layout,
    ) {
        Err(ResizeError::UnsupportedLayout)
    } else if width * blur_channels(layout) > u32::MAX {
        Err(ResizeError::TooLarge)
    } else {
        Ok(())
    }
}

/// Blurs the pixels in place with the stack blur, on one thread. A radius of
/// zero leaves every byte as it was, and so does a refusal.
pub fn apply_blur(pixels: &mut Vec<u8>, width: u32, height: u32, layout: PixelLayout, radius: u32) -> (result:
    Result<(), ResizeError>)
    ensures
        result == blur_verdict(old(pixels)@.len() as int, width, height, layout, radius),
        final(pixels)@.len() == old(pixels)@.len(),
        radius == 0 || width == 0 || height == 0 || result is Err ==> final(pixels)@ == old(
            pixels,
        )@,
{
    if radius == 0 || width == 0 || height == 0 {
        return Ok(());
    }
    let four: bool = layout.channels == 4;
    let channels: u8 = if four {
        4
    } else {
        3
    };
    if layout.bytes_per_pixel != channels || !has_buffer_len(pixels.len(), width, height, layout) {
        return Err(ResizeError::UnsupportedLayout);
    }
    let stride: u64 = (width as u64) * (channels as u64);
    if stride > u32::MAX as u64 {
        return Err(ResizeError::TooLarge);
    }
    assert(stride * height == pixels@.len()) by (nonlinear_arith)
        requires
            stride == width * channels,
            pixels@.len() == width * height * channels,
    ;
    stack_blur(pixels, stride as u32, width, height, radius, four, BlurThreads::Single);
    Ok(())
}

/// What stands in the way of transforming a single image, before anything is
/// resampled: a GIF target, a target too large to allocate, a crop window
/// larger than the source, or a blur that the pixel layout does not allow.
pub open spec fn page_check(
    shape: ImageShape,
    format: ImageFormat,
    width: u32,
    height: u32,
    transform: TransformMode,
    blur: u32,
) -> Result<(), ResizeError> {
    if format == ImageFormat::Gif {
        Err(ResizeError::UnsupportedFormat)
    } else if !addressable(width, height, shape.layout) {
        Err(ResizeError::TooLarge)
    } else if transform == TransformMode::Crop && (width > shape.width || height > shape.height) {
        Err(ResizeError::CropExceedsSource)
    } else {
        blur_verdict(buffer_len(width, height, shape.layout), width, height, shape.layout, blur)
    }
}

/// The pixels that a crop without blur hands to the encoder: the window of
/// the target size in the middle of the source.
pub open spec fn cropped_pixels(shape: ImageShape, source: Seq<u8>, width: u32, height: u32) -> Seq<
    u8,
> {
    let corner = centered_window(shape.width, shape.height, width, height);
    window_bytes(
        source,
        shape.width,
        shape.layout,
        corner.0 as u32,
        corner.1 as u32,
        width,
        height,
    )
}

/// What the transform of a single image comes to. Where nothing stands in
/// the way, the result is either the error of the resampler or what encoding
/// some buffer of the target size comes to, a file or the encoder's error. A crop is
/// a copy and never fails in the resampler; without blur its result is the
/// encoding of the window in the middle of the source, byte for byte.
pub open spec fn page_result(
    shape: ImageShape,
    source: Seq<u8>,
    format: ImageFormat,
    width: u32,
    height: u32,
    transform: TransformMode,
    blur: u32,
    quality: ImageQuality,
    result: Result<Seq<u8>, ResizeError>,
) -> bool {
    match page_check(shape, format, width, height, transform, blur) {
        Err(e) => result == Err::<Seq<u8>, ResizeError>(e),
        Ok(_) => {
            &&& result == Err::<Seq<u8>, ResizeError>(ResizeError::Resample) || exists|
                pixels: Seq<u8>,
            |
                pixels.len() == buffer_len(width, height, shape.layout) && #[trigger] encoded(
                    pixels,
                    width,
                    height,
                    shape.layout,
                    format,
                    quality,
                ) == result
            &&& transform == TransformMode::Crop ==> result != Err::<Seq<u8>, ResizeError>(
                ResizeError::Resample,
            )
            &&& transform == TransformMode::Crop && blur == 0 ==> result == encoded(
                cropped_pixels(shape, source, width, height),
                width,
                height,
                shape.layout,
                format,
                quality,
            )
        },
    }
}

fn is_addressable(width: u32, height: u32, layout: PixelLayout) -> (fits: bool)
    ensures
        fits == addressable(width, height, layout),
{
    assert(width * height <= 0xffff_ffff * 0xffff_ffff) by (nonlinear_arith)
        requires
            width <= 0xffff_ffff,
            height <= 0xffff_ffff,
    ;
    assert(width * height * layout.bytes_per_pixel <= 0xffff_ffff * 0xffff_ffff * 255)
        by (nonlinear_arith)
        requires
            0 <= width * height <= 0xffff_ffff * 0xffff_ffff,
            layout.bytes_per_pixel <= 255,
    ;
    let bytes: u128 = (width as u128) * (height as u128) * (layout.bytes_per_pixel as u128);
    2 * bytes <= usize::MAX as u128
}

/// Transforms a single image: resample to the target size, blur, encode.
pub fn resize_single_page(
    img: &DecodedImage,
    format: ImageFormat,
    width: u32,
    height: u32,
    transform: TransformMode,
    blur: u32,
    quality: ImageQuality,
) -> (result: Result<Vec<u8>, ResizeError>)
    ensures
        page_result(
            img.shape(),
            img.pixels(),
            format,
            width,
            height,
            transform,
            blur,
            quality,
            result_text(result),
        ),
{
    proof {
        use_type_invariant(img);
    }
    let layout = img.shape.layout;
    match format {
        ImageFormat::Gif => {
            return Err(ResizeError::UnsupportedFormat);
        },
        _ => {},
    }
    if !is_addressable(width, height, layout) {
        return Err(ResizeError::TooLarge);
    }
    let corner: Option<(u32, u32)> = match transform {
        TransformMode::Fit => None,
        TransformMode::Crop => match crop_window(img.shape.width, img.shape.height, width, height) {
            Ok(corner) => Some(corner),
            Err(e) => {
                return Err(e);
            },
        },
    };
    match blur_check(width, height, layout, blur) {
        Ok(_) => {},
        Err(e) => {
            return Err(e);
        },
    }
    let resampled = match corner {
        Some(corner) => resample_crop(&img.raw, corner.0, corner.1, width, height),
        None => resample_fit(&img.raw, width, height, FitAnchor::Centre),
    };
    let mut pixels = match resampled {
        Some(pixels) => pixels,
        None => {
            return Err(ResizeError::Resample);
        },
    };
    match apply_blur(&mut pixels, width, height, layout, blur) {
        Ok(_) => {},
        Err(e) => {
            return Err(e);
        },
    }
    let result = encode(pixels.as_slice(), width, height, img, format, quality);
    proof {
        if result is Ok {
            assert(encoded(pixels@, width, height, layout, format, quality) == result_text(result));
        }
    }
    result
}

/// The blur verdict for a buffer of the size of the image, before the buffer
/// exists.
fn blur_check(width: u32, height: u32, layout: PixelLayout, radius: u32) -> (verdict: Result<
    (),
    ResizeError,
>)
    ensures
        verdict == blur_verdict(
            buffer_len(width, height, layout),
            width,
            height,
            layout,
            radius,
        ),
{
    if radius == 0 || width == 0 || height == 0 {
        return Ok(());
    }
    let channels: u8 = if layout.channels == 4 {
        4
    } else {
        3
    };
    if layout.bytes_per_pixel != channels {
        return Err(ResizeError::UnsupportedLayout);
    }
    assert(width * channels <= 0xffff_ffff * 4) by (nonlinear_arith)
        requires
            width <= 0xffff_ffff,
            channels <= 4,
    ;
    if (width as u64) * (channels as u64) > u32::MAX as u64 {
        return Err(ResizeError::TooLarge);
    }
    Ok(())
}

/// Whether the scaler can hold its images: in fit mode the one that fills
/// the target, in crop mode the one that fits within it.
pub open spec fn scalable(shape: ImageShape, width: u32, height: u32, transform: TransformMode) -> bool {
    match transform {
        TransformMode::Fit => fillable(shape, width, height),
        TransformMode::Crop => fittable(shape, width, height),
    }
}

/// The frame that a mode makes of a source for a target. In fit mode the
/// source is scaled until it covers the target and cut to it: the frame has
/// the size of the target. In crop mode the source is scaled as a whole until
/// it fits within the target. Either way the pixels keep their layout.
pub open spec fn frame_of(
    shape: ImageShape,
    frame: ImageShape,
    width: u32,
    height: u32,
    transform: TransformMode,
) -> bool {
    &&& frame.layout == shape.layout
    &&& match transform {
        TransformMode::Fit => frame.width == width && frame.height == height,
        TransformMode::Crop => fits_within(shape, frame, width, height),
    }
}

/// What the transform of an animated image comes to: a refusal where the
/// scaler could not hold its images; else what writing the frame of the mode
/// as GIF comes to, a file or the encoder's error. A file opens with the GIF
/// header, and its screen is the frame. Only the first frame of the source
/// is carried over, with the sampling filter of Lanczos.
pub open spec fn frames_result(
    shape: ImageShape,
    width: u32,
    height: u32,
    transform: TransformMode,
    result: Result<Seq<u8>, ResizeError>,
) -> bool {
    if scalable(shape, width, height, transform) {
        exists|pixels: Seq<u8>, frame: ImageShape|
            {
                &&& frame_of(shape, frame, width, height, transform)
                &&& result == match #[trigger] gif_encoded(pixels, frame) {
                    Some(file) => Ok::<Seq<u8>, ResizeError>(file),
                    None => Err::<Seq<u8>, ResizeError>(ResizeError::Encode),
                }
                &&& result matches Ok(file) ==> has_gif_header(file) && gif_screen(file) == (
                    frame.width as int,
                    frame.height as int,
                )
            }
    } else {
        result == Err::<Seq<u8>, ResizeError>(ResizeError::TooLarge)
    }
}

fn fitted(target: u32) -> (side: u128)
    ensures
        side == fitted_side(target),
{
    if target == 0 {
        1
    } else {
        target as u128
    }
}

fn is_scalable(shape: ImageShape, width: u32, height: u32, transform: TransformMode) -> (fits: bool)
    ensures
        fits == scalable(shape, width, height, transform),
{
    if shape.width == 0 || shape.height == 0 {
        return false;
    }
    let limit: u128 = usize::MAX as u128;
    let src_w: u128 = shape.width as u128;
    let src_h: u128 = shape.height as u128;
    let w: u128 = fitted(width);
    let h: u128 = fitted(height);
    let side: u128 = 0x1_0000_0000;
    assert(src_w * h <= side * side && src_h * w <= side * side && w * w <= side * side && h * h
        <= side * side && w * h <= side * side) by (nonlinear_arith)
        requires
            0 <= src_w <= side,
            0 <= src_h <= side,
            0 <= w <= side,
            0 <= h <= side,
    ;
    assert(w * w * src_h <= side * side * side && h * h * src_w <= side * side * side)
        by (nonlinear_arith)
        requires
            0 <= w * w <= side * side,
            0 <= h * h <= side * side,
            0 <= src_w <= side,
            0 <= src_h <= side,
    ;
    match transform {
        TransformMode::Fit => {
            src_w * h <= u32::MAX as u128 && src_h * w <= u32::MAX as u128 && 128 * (src_w * h)
                <= limit && 128 * (src_h * w) <= limit && 128 * (w * w * src_h) <= limit && 128
                * (h * h * src_w) <= limit
        },
        TransformMode::Crop => 128 * (src_w * h) <= limit && 128 * (w * h) <= limit,
    }
}

proof fn lemma_frame_is_writable(
    shape: ImageShape,
    frame: ImageShape,
    width: u32,
    height: u32,
    transform: TransformMode,
)
    requires
        scalable(shape, width, height, transform),
        frame_of(shape, frame, width, height, transform),
    ensures
        writable_as_gif(frame),
{
    let w = fitted_side(width);
    let h = fitted_side(height);
    assert(frame.width * frame.height <= w * h) by (nonlinear_arith)
        requires
            0 <= frame.width <= w,
            0 <= frame.height <= h,
    ;
    assert(w * h <= w * w * shape.height + h * h * shape.width) by (nonlinear_arith)
        requires
            shape.width >= 1,
            shape.height >= 1,
            0 <= w,
            0 <= h,
    ;
}

/// Transforms an animated image by scaling it as a whole: in fit mode so
/// that it covers the target, in crop mode so that it fits within it.
pub fn resize_multi_pages(img: &DecodedImage, width: u32, height: u32, transform: TransformMode) -> (result:
    Result<Vec<u8>, ResizeError>)
    ensures
        frames_result(img.shape(), width, height, transform, result_text(result)),
{
    proof {
        use_type_invariant(img);
    }
    if !is_scalable(img.shape, width, height, transform) {
        return Err(ResizeError::TooLarge);
    }
    let scaled = match transform {
        TransformMode::Fit => scale_to_fill(&img.raw, width, height, ScaleFilter::Lanczos3),
        TransformMode::Crop => scale_to_fit(&img.raw, width, height, ScaleFilter::Lanczos3),
    };
    proof {
        lemma_frame_is_writable(img.shape, image_shape(scaled), width, height, transform);
    }
    let file = write_gif(&scaled);
    let result = match file {
        Some(bytes) => Ok(bytes),
        None => Err(ResizeError::Encode),
    };
    proof {
        let frame = image_shape(scaled);
        assert(frame_of(img.shape, frame, width, height, transform));
        assert(result_text(result) == match gif_encoded(image_bytes(scaled), frame) {
            Some(bytes) => Ok::<Seq<u8>, ResizeError>(bytes),
            None => Err::<Seq<u8>, ResizeError>(ResizeError::Encode),
        });
    }
    result
}

/// The format that is written: the target where one is named, else the
/// declared format of the source.
pub open spec fn output_format(format: ImageFormat, target_format: Option<ImageFormat>) -> ImageFormat {
    match target_format {
        Some(target) => target,
        None => format,
    }
}

/// What a transform comes to, from the bytes of the source to the bytes of
/// the result.
pub open spec fn transform_result(
    bytes: Seq<u8>,
    params: ResizeParams,
    format: ImageFormat,
    target_format: Option<ImageFormat>,
    config: &Config,
    result: Result<Seq<u8>, ResizeError>,
) -> bool {
    match decode_outcome(bytes, format) {
        None => result == Err::<Seq<u8>, ResizeError>(ResizeError::UnknownFormat),
        Some((shape, _)) => {
            let height = target_height(&params, shape.width, shape.height, config) as u32;
            let written = output_format(format, target_format);
            if written == ImageFormat::Gif {
                frames_result(shape, params.w, height, params.t, result)
            } else {
                exists|source: Seq<u8>| #[trigger]
                    page_result(
                        shape,
                        source,
                        written,
                        params.w,
                        height,
                        params.t,
                        params.b,
                        params.q,
                        result,
                    )
            }
        },
    }
}

/// Transforms the image in `img_buf` as the request asks.
pub fn resize_image(
    img_buf: &[u8],
    params: ResizeParams,
    format: ImageFormat,
    target_format: Option<ImageFormat>,
    config: &Config,
) -> (result: Result<Vec<u8>, ResizeError>)
    ensures
        transform_result(img_buf@, params, format, target_format, config, result_text(result)),
{
    let img = match decode(img_buf, format) {
        Ok(img) => img,
        Err(e) => {
            return Err(e);
        },
    };
    let size = resolve_size(&params, img.width(), img.height(), config);
    let format_to_use = match target_format {
        Some(target) => target,
        None => format,
    };
    match format_to_use {
        ImageFormat::Gif => resize_multi_pages(&img, size.0, size.1, params.t),
        _ => {
            let result = resize_single_page(
                &img,
                format_to_use,
                size.0,
                size.1,
                params.t,
                params.b,
                params.q,
            );
            proof {
                let shape = img.shape();
                let height = target_height(&params, shape.width, shape.height, config) as u32;
                let written = output_format(format, target_format);
                assert(height == size.1);
                assert(written == format_to_use);
                assert(decode_outcome(img_buf@, format) matches Some(outcome) && outcome.0
                    == shape);
                assert(page_result(
                    shape,
                    img.pixels(),
                    written,
                    params.w,
                    height,
                    params.t,
                    params.b,
                    params.q,
                    result_text(result),
                ));
            }
            result
        },
    }
}

} // verus!
