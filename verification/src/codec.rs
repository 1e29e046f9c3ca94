//! The image codecs, the resampler and the blur, as this library sees them:
//! each call with the contract that the rest of the library builds on. The
//! contracts in this file are taken from the sources of the `image`,
//! `imghdr`, `fast_image_resize` and `libblur` crates and are not proved.

use fast_image_resize::IntoImageView;
use image::ImageEncoder;
use vstd::prelude::*;
use crate::types::ImageFormat;

verus! {

/// How the bytes of one pixel are laid out.
#[derive(Debug, Clone, Copy, PartialEq, Eq, Structural)]
pub struct PixelLayout {
    /// Samples per pixel, 1 to 4.
    pub channels: u8,
    /// Bytes per pixel: the channels times one, two or four bytes a sample.
    pub bytes_per_pixel: u8,
}

/// What a pixel container reports of itself.
#[derive(Debug, Clone, Copy, PartialEq, Eq, Structural)]
pub struct ImageShape {
    pub width: u32,
    pub height: u32,
    pub layout: PixelLayout,
}

/// The deflate effort of the PNG encoder.
#[derive(Debug, Clone, Copy, PartialEq, Eq, Structural)]
pub enum PngCompression {
    Default,
    Fast,
    Best,
}

/// How the PNG encoder filters the rows before it compresses them.
#[derive(Debug, Clone, Copy, PartialEq, Eq, Structural)]
pub enum PngFilter {
    /// The rows as they are.
    NoFilter,
    /// For every row the filter that a heuristic picks.
    Adaptive,
}

/// The filter that the scaler of the `image` crate samples with.
#[derive(Debug, Clone, Copy, PartialEq, Eq, Structural)]
pub enum ScaleFilter {
    Nearest,
    Triangle,
    CatmullRom,
    Gaussian,
    Lanczos3,
}

/// The part of the source that is kept where a fit has to cut it.
#[derive(Debug, Clone, Copy, PartialEq, Eq, Structural)]
pub enum FitAnchor {
    TopLeft,
    Centre,
    BottomRight,
}

/// The threads that the blur may use. A blur on further threads needs a
/// thread pool, which the machine may refuse; none is offered.
#[derive(Debug, Clone, Copy, PartialEq, Eq, Structural)]
pub enum BlurThreads {
    /// The calling thread alone.
    Single,
}

/// The pixel container of the `image` crate.
#[verifier::external_type_specification]
#[verifier::external_body]
pub struct ExDynamicImage(image::DynamicImage);

/// What a pixel container holds, as far as this library reads it: its width,
/// its height and the layout of its pixels.
pub uninterp spec fn image_shape(img: image::DynamicImage) -> ImageShape;

/// The bytes that a pixel container holds: the pixels row after row from the
/// top, each row from the left, pixel after pixel without gaps, and after
/// them whatever else the container was made with.
pub uninterp spec fn image_bytes(img: image::DynamicImage) -> Seq<u8>;

/// The shape of the image that the bytes decode to when read as the given
/// format; `None` where they do not decode.
pub uninterp spec fn decoded_shape(bytes: Seq<u8>, format: ImageFormat) -> Option<ImageShape>;

/// Whether the pattern stands in the bytes at the given place.
pub open spec fn has_at(bytes: Seq<u8>, at: int, pattern: Seq<u8>) -> bool {
    at + pattern.len() <= bytes.len() && bytes.subrange(at, at + pattern.len()) == pattern
}

/// The format whose signature the bytes carry, where it is one of the four
/// this library handles. The signatures are tried in this order: the eight
/// bytes that open a PNG file; `JFIF` or `Exif` from the seventh byte on, for
/// JPEG; `GIF87a` or `GIF89a`; `RIFF`, and `WEBP` from the ninth byte on.
pub open spec fn sniffed_format(bytes: Seq<u8>) -> Option<ImageFormat> {
    if has_at(bytes, 0, seq![137u8, 80, 78, 71, 13, 10, 26, 10]) {
        Some(ImageFormat::Png)
    } else if has_at(bytes, 6, seq![74u8, 70, 73, 70]) || has_at(bytes, 6, seq![69u8, 120, 105, 102]) {
        Some(ImageFormat::Jpeg)
    } else if has_at(bytes, 0, seq![71u8, 73, 70, 56, 55, 97]) || has_at(
        bytes,
        0,
        seq![71u8, 73, 70, 56, 57, 97],
    ) {
        Some(ImageFormat::Gif)
    } else if has_at(bytes, 0, seq![82u8, 73, 70, 70]) && has_at(bytes, 8, seq![87u8, 69, 66, 80]) {
        Some(ImageFormat::Webp)
    } else {
        None
    }
}

/// The PNG file that the encoder writes for the pixels at the given
/// compression and row filter; `None` where it rejects them. Samples of two
/// bytes are read in the byte order of the machine, so the file is a
/// function of the bytes among machines of one byte order.
pub uninterp spec fn png_encoded(
    pixels: Seq<u8>,
    width: u32,
    height: u32,
    layout: PixelLayout,
    compression: PngCompression,
    filter: PngFilter,
) -> Option<Seq<u8>>;

/// The JPEG file that the encoder writes for the pixels at the given quality
/// setting; `None` where it rejects them.
pub uninterp spec fn jpeg_encoded(
    pixels: Seq<u8>,
    width: u32,
    height: u32,
    layout: PixelLayout,
    quality: u8,
) -> Option<Seq<u8>>;

/// The lossless WebP file that the encoder writes for the pixels; `None`
/// where it rejects them.
pub uninterp spec fn webp_lossless(
    pixels: Seq<u8>,
    width: u32,
    height: u32,
    layout: PixelLayout,
) -> Option<Seq<u8>>;

/// The GIF file that the writer makes of an image with the given bytes and
/// shape: one frame on a screen of the size of the image; `None` where it
/// rejects the image.
pub uninterp spec fn gif_encoded(pixels: Seq<u8>, shape: ImageShape) -> Option<Seq<u8>>;

/// The number of bytes of a `width` by `height` buffer of the layout.
pub open spec fn buffer_len(width: u32, height: u32, layout: PixelLayout) -> int {
    width * height * layout.bytes_per_pixel
}

/// The bytes of a window of an image that is `src_width` pixels wide: the
/// rows from `top` on, and of each row the pixels from `left` on.
pub open spec fn window_bytes(
    bytes: Seq<u8>,
    src_width: u32,
    layout: PixelLayout,
    left: u32,
    top: u32,
    width: u32,
    height: u32,
) -> Seq<u8> {
    Seq::new(
        buffer_len(width, height, layout) as nat,
        |i: int|
            bytes[((top + i / (width * layout.bytes_per_pixel)) * src_width + left)
                * layout.bytes_per_pixel + i % (width * layout.bytes_per_pixel)],
    )
}

/// A buffer of the size can be allocated: `Vec` takes at most `isize::MAX`
/// bytes.
pub open spec fn addressable(width: u32, height: u32, layout: PixelLayout) -> bool {
    2 * buffer_len(width, height, layout) <= usize::MAX
}

/// The largest side that scaling to fit within a target side can give: the
/// target side, but no image is scaled to less than one pixel.
pub open spec fn fitted_side(target: u32) -> int {
    if target == 0 {
        1
    } else {
        target as int
    }
}

/// The scaler of the `image` crate can fill the target from a source of the
/// shape. It scales by the larger of the two ratios, first the rows and then
/// the columns, in rows of 16 bytes a pixel: the image between the two
/// passes has the width of the source, and the scaled image is no larger than
/// `width * width * shape.height` or `height * height * shape.width` pixels.
/// Its sides must fit in 32 bits.
pub open spec fn fillable(shape: ImageShape, width: u32, height: u32) -> bool {
    &&& shape.width >= 1
    &&& shape.height >= 1
    &&& shape.width * fitted_side(height) <= u32::MAX
    &&& shape.height * fitted_side(width) <= u32::MAX
    &&& 128 * (shape.width * fitted_side(height)) <= usize::MAX
    &&& 128 * (shape.height * fitted_side(width)) <= usize::MAX
    &&& 128 * (fitted_side(width) * fitted_side(width) * shape.height) <= usize::MAX
    &&& 128 * (fitted_side(height) * fitted_side(height) * shape.width) <= usize::MAX
}

/// The scaler of the `image` crate can fit a source of the shape within the
/// target: the image between its two passes has the width of the source and
/// at most the height of the target.
pub open spec fn fittable(shape: ImageShape, width: u32, height: u32) -> bool {
    &&& shape.width >= 1
    &&& shape.height >= 1
    &&& 128 * (shape.width * fitted_side(height)) <= usize::MAX
    &&& 128 * (fitted_side(width) * fitted_side(height)) <= usize::MAX
}

/// A frame that fits a source within a target: no larger than the target on
/// either side, and for a target with pixels the largest frame of the
/// proportions of the source, to the pixel. The side on which the target is
/// the tighter is the side of the target; the other side misses the
/// proportional length by less than one pixel and is never less than one.
pub open spec fn fits_within(shape: ImageShape, frame: ImageShape, width: u32, height: u32) -> bool {
    &&& frame.width <= fitted_side(width)
    &&& frame.height <= fitted_side(height)
    &&& width >= 1 && height >= 1 ==> {
        &&& frame.width >= 1
        &&& frame.height >= 1
        &&& width * shape.height <= height * shape.width ==> {
            &&& frame.width == width
            &&& (frame.height - 1) * shape.width <= shape.height * width
            &&& shape.height * width <= (frame.height + 1) * shape.width
        }
        &&& height * shape.width <= width * shape.height ==> {
            &&& frame.height == height
            &&& (frame.width - 1) * shape.height <= shape.width * height
            &&& shape.width * height <= (frame.width + 1) * shape.height
        }
    }
}

/// The bytes of the container are exactly those of its pixels.
pub open spec fn holds_its_pixels(img: image::DynamicImage) -> bool {
    image_bytes(img).len() == buffer_len(
        image_shape(img).width,
        image_shape(img).height,
        image_shape(img).layout,
    )
}

/// `image::ImageReader::decode` on the bytes, with the reader's format set
/// to the given one. Whether the bytes decode, and to what shape, depends on
/// the bytes and the format alone. The decoder fills a container of exactly
/// the size of the image.
#[verifier::external_body]
pub(crate) fn decode_as(bytes: &[u8], format: ImageFormat) -> (decoded: Option<
    image::DynamicImage,
>)
    ensures
        match decoded {
            Some(img) => decoded_shape(bytes@, format) == Some(image_shape(img)),
            None => decoded_shape(bytes@, format) is None,
        },
        decoded matches Some(img) ==> holds_its_pixels(img),
{
    let mut reader = image::ImageReader::new(std::io::Cursor::new(bytes));
    reader.set_format(
        match format {
            ImageFormat::Png => image::ImageFormat::Png,
            ImageFormat::Jpeg => image::ImageFormat::Jpeg,
            ImageFormat::Webp => image::ImageFormat::WebP,
            ImageFormat::Gif => image::ImageFormat::Gif,
        },
    );
    reader.decode().ok()
}

/// `DynamicImage::width`, `height` and `color`, the colour type given by its
/// `channel_count` and `bytes_per_pixel`. Every colour type has one to four
/// channels of one, two or four bytes each.
#[verifier::external_body]
pub(crate) fn shape_of(img: &image::DynamicImage) -> (shape: ImageShape)
    ensures
        shape == image_shape(*img),
        1 <= shape.layout.channels <= 4,
        shape.layout.channels <= shape.layout.bytes_per_pixel <= 16,
{
    let color = img.color();
    let layout = PixelLayout {
        channels: color.channel_count(),
        bytes_per_pixel: color.bytes_per_pixel(),
    };
    ImageShape { width: img.width(), height: img.height(), layout }
}

/// `DynamicImage::as_bytes`, copied: the samples of the image in memory
/// order, which is row by row and pixel by pixel. A container holds at least
/// as many bytes as its shape gives.
#[verifier::external_body]
pub(crate) fn bytes_of(img: &image::DynamicImage) -> (bytes: Vec<u8>)
    ensures
        bytes@ == image_bytes(*img),
        bytes@.len() >= buffer_len(
            image_shape(*img).width,
            image_shape(*img).height,
            image_shape(*img).layout,
        ),
{
    img.as_bytes().to_vec()
}

/// `imghdr::from_bytes`, which reads up to the first twelve bytes and fails
/// on fewer. Of the types it tells apart, the four that this library handles
/// are handed on. It tries PNG, JPEG and GIF first, in this order; the types
/// that it tries between GIF and WebP open with other bytes than `RIFF`.
#[verifier::external_body]
pub(crate) fn sniff(bytes: &[u8]) -> (format: Option<ImageFormat>)
    requires
        bytes@.len() >= 12,
    ensures
        format == sniffed_format(bytes@),
{
    match imghdr::from_bytes(bytes) {
        Some(imghdr::Type::Jpeg) => Some(ImageFormat::Jpeg),
        Some(imghdr::Type::Png) => Some(ImageFormat::Png),
        Some(imghdr::Type::Webp) => Some(ImageFormat::Webp),
        Some(imghdr::Type::Gif) => Some(ImageFormat::Gif),
        _ => None,
    }
}

/// `fast_image_resize::Resizer::resize` into a new image of the target size,
/// with the option `fit_into_destination` and the part of the source to keep:
/// its centring is 0 for the top left, 1 for the bottom right, and left to
/// its default for the middle. The pixels that come out depend on the
/// processor, so nothing is said of them; the buffer has the target size in
/// the layout of the source.
#[verifier::external_body]
pub(crate) fn resample_fit(
    img: &image::DynamicImage,
    width: u32,
    height: u32,
    anchor: FitAnchor,
) -> (pixels: Option<Vec<u8>>)
    requires
        addressable(width, height, image_shape(*img).layout),
    ensures
        pixels matches Some(buffer) ==> buffer@.len() == buffer_len(
            width,
            height,
            image_shape(*img).layout,
        ),
{
    let mut target = fast_image_resize::images::Image::new(width, height, img.pixel_type()?);
    let centring = match anchor {
        FitAnchor::TopLeft => Some((0u8.into(), 0u8.into())),
        FitAnchor::Centre => None,
        FitAnchor::BottomRight => Some((1u8.into(), 1u8.into())),
    };
    let options = fast_image_resize::ResizeOptions::new().fit_into_destination(centring);
    fast_image_resize::Resizer::new().resize(img, &mut target, &options).ok()?;
    Some(target.into_vec())
}

/// `fast_image_resize::Resizer::resize` into a new image of the target size,
/// with the option `crop` set to the window of that size at the given
/// corner. A window of the size of the target is not resampled: its rows
/// are copied, which succeeds for every window that lies within the source.
#[verifier::external_body]
pub(crate) fn resample_crop(
    img: &image::DynamicImage,
    left: u32,
    top: u32,
    width: u32,
    height: u32,
) -> (pixels: Option<Vec<u8>>)
    requires
        addressable(width, height, image_shape(*img).layout),
        left + width <= image_shape(*img).width,
        top + height <= image_shape(*img).height,
    ensures
        pixels is Some,
        pixels matches Some(buffer) ==> buffer@ == window_bytes(
            image_bytes(*img),
            image_shape(*img).width,
            image_shape(*img).layout,
            left,
            top,
            width,
            height,
        ),
{
    let mut target = fast_image_resize::images::Image::new(width, height, img.pixel_type()?);
    let options = fast_image_resize::ResizeOptions::new().crop(
        left.into(),
        top.into(),
        width.into(),
        height.into(),
    );
    fast_image_resize::Resizer::new().resize(img, &mut target, &options).ok()?;
    Some(target.into_vec())
}

/// `libblur::stack_blur`, in place, over rows of `stride` bytes with three
/// or four bytes a pixel, on the threads that the policy allows. It reads and
/// writes within `stride * height` bytes and leaves the length of the buffer
/// alone; the pixels that come out depend on the processor.
#[verifier::external_body]
pub(crate) fn stack_blur(
    pixels: &mut Vec<u8>,
    stride: u32,
    width: u32,
    height: u32,
    radius: u32,
    four_channels: bool,
    threads: BlurThreads,
)
    requires
        width >= 1,
        height >= 1,
        width * (if four_channels { 4int } else { 3int }) <= stride,
        stride * height <= old(pixels)@.len(),
    ensures
        final(pixels)@.len() == old(pixels)@.len(),
{
    let channels = if four_channels {
        libblur::FastBlurChannels::Channels4
    } else {
        libblur::FastBlurChannels::Channels3
    };
    let policy = match threads {
        BlurThreads::Single => libblur::ThreadingPolicy::Single,
    };
    libblur::stack_blur(pixels, stride, width, height, radius, channels, policy);
}

/// `PngEncoder::new_with_quality`, then `write_image` with the colour type
/// of `like`. The encoder insists on a buffer of exactly the size that the
/// dimensions and the layout give.
#[verifier::external_body]
pub(crate) fn encode_png(
    pixels: &[u8],
    width: u32,
    height: u32,
    like: &image::DynamicImage,
    compression: PngCompression,
    filter: PngFilter,
) -> (file: Option<Vec<u8>>)
    requires
        pixels@.len() == buffer_len(width, height, image_shape(*like).layout),
    ensures
        file_text(file) == png_encoded(
            pixels@,
            width,
            height,
            image_shape(*like).layout,
            compression,
            filter,
        ),
{
    let mut file = Vec::new();
    let level = match compression {
        PngCompression::Default => image::codecs::png::CompressionType::Default,
        PngCompression::Fast => image::codecs::png::CompressionType::Fast,
        PngCompression::Best => image::codecs::png::CompressionType::Best,
    };
    let rows = match filter {
        PngFilter::NoFilter => image::codecs::png::FilterType::NoFilter,
        PngFilter::Adaptive => image::codecs::png::FilterType::Adaptive,
    };
    let encoder = image::codecs::png::PngEncoder::new_with_quality(&mut file, level, rows);
    encoder.write_image(pixels, width, height, like.color().into()).ok()?;
    Some(file)
}

/// `JpegEncoder::new_with_quality`, then `write_image` with the colour type
/// of `like`. The encoder insists on a buffer of exactly the size that the
/// dimensions and the layout give.
#[verifier::external_body]
pub(crate) fn encode_jpeg(
    pixels: &[u8],
    width: u32,
    height: u32,
    like: &image::DynamicImage,
    quality: u8,
) -> (file: Option<Vec<u8>>)
    requires
        pixels@.len() == buffer_len(width, height, image_shape(*like).layout),
    ensures
        file_text(file) == jpeg_encoded(pixels@, width, height, image_shape(*like).layout, quality),
{
    let mut file = Vec::new();
    let encoder = image::codecs::jpeg::JpegEncoder::new_with_quality(&mut file, quality);
    encoder.write_image(pixels, width, height, like.color().into()).ok()?;
    Some(file)
}

/// `WebPEncoder::new_lossless`, then `write_image` with the colour type of
/// `like`. The encoder insists on a buffer of exactly the size that the
/// dimensions and the layout give.
#[verifier::external_body]
pub(crate) fn encode_webp_lossless(pixels: &[u8], width: u32, height: u32, like: &image::DynamicImage) -> (file:
    Option<Vec<u8>>)
    requires
        pixels@.len() == buffer_len(width, height, image_shape(*like).layout),
    ensures
        file_text(file) == webp_lossless(pixels@, width, height, image_shape(*like).layout),
{
    let mut file = Vec::new();
    let encoder = image::codecs::webp::WebPEncoder::new_lossless(&mut file);
    encoder.write_image(pixels, width, height, like.color().into()).ok()?;
    Some(file)
}

/// Whether the bytes open as a GIF file does: with at least the thirteen
/// bytes of the header, of which the first six spell `GIF89a`.
pub open spec fn has_gif_header(file: Seq<u8>) -> bool {
    file.len() >= 13 && has_at(file, 0, seq![71u8, 73, 70, 56, 57, 97])
}

/// The width and the height of the screen that the header of a GIF file
/// gives, each written as two bytes with the low byte first.
pub open spec fn gif_screen(file: Seq<u8>) -> (int, int) {
    (file[6] + 256 * file[7], file[8] + 256 * file[9])
}

/// The image can be handed to the GIF writer, which makes a copy of it with
/// four bytes a pixel.
pub open spec fn writable_as_gif(shape: ImageShape) -> bool {
    8 * (shape.width * shape.height) <= usize::MAX
}

/// `DynamicImage::resize_to_fill`: the source is scaled until it covers the
/// target and is then cut to the target from the middle, so the result has
/// the size of the target. The pixels keep their layout and lie in a new
/// container of their size. The scaler computes in floating point, so
/// nothing is said of the pixels.
#[verifier::external_body]
pub(crate) fn scale_to_fill(
    img: &image::DynamicImage,
    width: u32,
    height: u32,
    filter: ScaleFilter,
) -> (scaled: image::DynamicImage)
    requires
        fillable(image_shape(*img), width, height),
    ensures
        image_shape(scaled).width == width,
        image_shape(scaled).height == height,
        image_shape(scaled).layout == image_shape(*img).layout,
        holds_its_pixels(scaled),
{
    let sampling = match filter {
        ScaleFilter::Nearest => image::imageops::FilterType::Nearest,
        ScaleFilter::Triangle => image::imageops::FilterType::Triangle,
        ScaleFilter::CatmullRom => image::imageops::FilterType::CatmullRom,
        ScaleFilter::Gaussian => image::imageops::FilterType::Gaussian,
        ScaleFilter::Lanczos3 => image::imageops::FilterType::Lanczos3,
    };
    img.resize_to_fill(width, height, sampling)
}

/// `DynamicImage::resize`: the source is scaled by the smaller of the two
/// ratios, so that it fits within the target, and never to less than one
/// pixel a side; a source of the size of the target is copied. The pixels
/// keep their layout.
#[verifier::external_body]
pub(crate) fn scale_to_fit(
    img: &image::DynamicImage,
    width: u32,
    height: u32,
    filter: ScaleFilter,
) -> (scaled: image::DynamicImage)
    requires
        fittable(image_shape(*img), width, height),
        holds_its_pixels(*img),
    ensures
        fits_within(image_shape(*img), image_shape(scaled), width, height),
        image_shape(scaled).layout == image_shape(*img).layout,
        holds_its_pixels(scaled),
{
    let sampling = match filter {
        ScaleFilter::Nearest => image::imageops::FilterType::Nearest,
        ScaleFilter::Triangle => image::imageops::FilterType::Triangle,
        ScaleFilter::CatmullRom => image::imageops::FilterType::CatmullRom,
        ScaleFilter::Gaussian => image::imageops::FilterType::Gaussian,
        ScaleFilter::Lanczos3 => image::imageops::FilterType::Lanczos3,
    };
    img.resize(width, height, sampling)
}

/// `DynamicImage::write_to` as GIF, into an empty buffer. The file depends
/// on the bytes and the shape of the image alone. The writer opens it with
/// the header of a screen of the size of the image; it refuses an image with
/// a side above 65535, and insists on a container of exactly the size of the
/// image.
#[verifier::external_body]
pub(crate) fn write_gif(img: &image::DynamicImage) -> (file: Option<Vec<u8>>)
    requires
        writable_as_gif(image_shape(*img)),
        holds_its_pixels(*img),
    ensures
        file_text(file) == gif_encoded(image_bytes(*img), image_shape(*img)),
        file matches Some(bytes) ==> has_gif_header(bytes@),
        file matches Some(bytes) ==> gif_screen(bytes@) == (
            image_shape(*img).width as int,
            image_shape(*img).height as int,
        ),
{
    let mut file = std::io::Cursor::new(Vec::new());
    img.write_to(&mut file, image::ImageFormat::Gif).ok()?;
    Some(file.into_inner())
}

/// The bytes of a file that was written, if one was.
pub open spec fn file_text(file: Option<Vec<u8>>) -> Option<Seq<u8>> {
    match file {
        Some(bytes) => Some(bytes@),
        None => None,
    }
}

} // verus!
