//! The vocabulary of a transform request: quality tiers, container formats,
//! transform modes, the resolved request and the ways a transform can fail.

use vstd::prelude::*;
use crate::text::{chars_equal, str_equals, to_chars};

verus! {

/// Abstract quality tier; each encoder maps it to its own setting.
#[derive(Debug, Clone, Copy, PartialEq, Eq, Structural)]
pub enum ImageQuality {
    Low,
    Medium,
    High,
    Best,
}

/// Container formats that can be read and written.
#[derive(Debug, Clone, Copy, PartialEq, Eq, Structural)]
pub enum ImageFormat {
    Png,
    Jpeg,
    Webp,
    Gif,
}

#[derive(Debug, Clone, Copy, PartialEq, Eq, Structural)]
pub enum TransformMode {
    /// Scale the whole source into the target, centred.
    Fit,
    /// Cut a centred window of the target size out of the source.
    Crop,
}

impl TransformMode {
    /// The one-letter code of the mode: `f` or `c`.
    pub open spec fn code(self) -> Seq<char> {
        match self {
            TransformMode::Fit => "f"@,
            TransformMode::Crop => "c"@,
        }
    }

    pub fn to_string(&self) -> (s: String)
        ensures
            s@ == self.code(),
    {
        match self {
            TransformMode::Fit => "f".to_owned(),
            TransformMode::Crop => "c".to_owned(),
        }
    }

    /// Reads a mode from its long or short name.
    pub open spec fn parse(name: Seq<char>) -> Option<TransformMode> {
        if name == "fit"@ || name == "f"@ {
            Some(TransformMode::Fit)
        } else if name == "crop"@ || name == "c"@ {
            Some(TransformMode::Crop)
        } else {
            None
        }
    }

    pub fn from_name(name: &str) -> (mode: Option<TransformMode>)
        ensures
            mode == Self::parse(name@),
    {
        if str_equals(name, "fit") || str_equals(name, "f") {
            Some(TransformMode::Fit)
        } else if str_equals(name, "crop") || str_equals(name, "c") {
            Some(TransformMode::Crop)
        } else {
            None
        }
    }
}

impl ImageQuality {
    /// The one-letter code of the tier: `l`, `m`, `h` or `b`.
    pub open spec fn code(self) -> Seq<char> {
        match self {
            ImageQuality::Low => "l"@,
            ImageQuality::Medium => "m"@,
            ImageQuality::High => "h"@,
            ImageQuality::Best => "b"@,
        }
    }

    pub fn to_string(&self) -> (s: String)
        ensures
            s@ == self.code(),
    {
        match self {
            ImageQuality::Low => "l".to_owned(),
            ImageQuality::Medium => "m".to_owned(),
            ImageQuality::High => "h".to_owned(),
            ImageQuality::Best => "b".to_owned(),
        }
    }

    /// Reads a tier from its long or short name.
    pub open spec fn parse(name: Seq<char>) -> Option<ImageQuality> {
        if name == "low"@ || name == "l"@ {
            Some(ImageQuality::Low)
        } else if name == "medium"@ || name == "m"@ {
            Some(ImageQuality::Medium)
        } else if name == "high"@ || name == "h"@ {
            Some(ImageQuality::High)
        } else if name == "best"@ || name == "b"@ {
            Some(ImageQuality::Best)
        } else {
            None
        }
    }

    pub fn from_name(name: &str) -> (quality: Option<ImageQuality>)
        ensures
            quality == Self::parse(name@),
    {
        if str_equals(name, "low") || str_equals(name, "l") {
            Some(ImageQuality::Low)
        } else if str_equals(name, "medium") || str_equals(name, "m") {
            Some(ImageQuality::Medium)
        } else if str_equals(name, "high") || str_equals(name, "h") {
            Some(ImageQuality::High)
        } else if str_equals(name, "best") || str_equals(name, "b") {
            Some(ImageQuality::Best)
        } else {
            None
        }
    }
}

/// An upper-case ASCII letter becomes its lower-case form; every other
/// character stays.
pub open spec fn ascii_lower(c: char) -> char {
    if 'A' <= c <= 'Z' {
        ((c as int) + 32) as char
    } else {
        c
    }
}

pub open spec fn ascii_lowered(s: Seq<char>) -> Seq<char> {
    Seq::new(s.len(), |i: int| ascii_lower(s[i]))
}

fn to_ascii_lower(s: &str) -> (lowered: Vec<char>)
    ensures
        lowered@ == ascii_lowered(s@),
{
    let chars = to_chars(s);
    let mut lowered: Vec<char> = Vec::new();
    let mut i: usize = 0;
    while i < chars.len()
        invariant
            chars@ == s@,
            i <= chars@.len(),
            lowered@.len() == i,
            forall|j: int| 0 <= j < i ==> lowered@[j] == ascii_lower(chars@[j]),
        decreases chars@.len() - i,
    {
        let c = chars[i];
        if 'A' <= c && c <= 'Z' {
            let code: u8 = (c as u32 + 32) as u8;
            lowered.push(code as char);
        } else {
            lowered.push(c);
        }
        i += 1;
    }
    assert(lowered@ =~= ascii_lowered(s@));
    lowered
}

fn spells(chars: &[char], word: &str) -> (same: bool)
    ensures
        same == (chars@ == word@),
{
    let expected = to_chars(word);
    chars_equal(chars, expected.as_slice())
}

impl ImageFormat {
    /// The format that a file extension names, if it names one.
    pub open spec fn of_extension(ext: Seq<char>) -> Option<ImageFormat> {
        if ext == "png"@ {
            Some(ImageFormat::Png)
        } else if ext == "jpg"@ || ext == "jpeg"@ {
            Some(ImageFormat::Jpeg)
        } else if ext == "webp"@ {
            Some(ImageFormat::Webp)
        } else if ext == "gif"@ {
            Some(ImageFormat::Gif)
        } else {
            None
        }
    }

    pub fn from_extension(ext: &str) -> (format: Option<Self>)
        ensures
            format == Self::of_extension(ext@),
    {
        if str_equals(ext, "png") {
            Some(Self::Png)
        } else if str_equals(ext, "jpg") || str_equals(ext, "jpeg") {
            Some(Self::Jpeg)
        } else if str_equals(ext, "webp") {
            Some(Self::Webp)
        } else if str_equals(ext, "gif") {
            Some(Self::Gif)
        } else {
            None
        }
    }

    /// The format that a name or a media type stands for, letter case aside.
    /// Anything unrecognised counts as JPEG.
    pub open spec fn of_name(name: Seq<char>) -> ImageFormat {
        let lowered = ascii_lowered(name);
        if lowered == "png"@ || lowered == "image/png"@ {
            ImageFormat::Png
        } else if lowered == "jpg"@ || lowered == "jpeg"@ || lowered == "image/jpeg"@ {
            ImageFormat::Jpeg
        } else if lowered == "webp"@ || lowered == "image/webp"@ {
            ImageFormat::Webp
        } else {
            ImageFormat::Jpeg
        }
    }

    /// The media type under which the format is served.
    pub open spec fn media_type(self) -> Seq<char> {
        match self {
            ImageFormat::Png => "image/png"@,
            ImageFormat::Jpeg => "image/jpeg"@,
            ImageFormat::Webp => "image/webp"@,
            ImageFormat::Gif => "image/gif"@,
        }
    }

    pub fn content_type(&self) -> (s: String)
        ensures
            s@ == self.media_type(),
    {
        match self {
            ImageFormat::Png => "image/png".to_owned(),
            ImageFormat::Jpeg => "image/jpeg".to_owned(),
            ImageFormat::Webp => "image/webp".to_owned(),
            ImageFormat::Gif => "image/gif".to_owned(),
        }
    }
}

impl From<String> for ImageFormat {
    fn from(val: String) -> (format: ImageFormat) {
        let lowered = to_ascii_lower(val.as_str());
        let name = lowered.as_slice();
        if spells(name, "png") || spells(name, "image/png") {
            ImageFormat::Png
        } else if spells(name, "jpg") || spells(name, "jpeg") || spells(name, "image/jpeg") {
            ImageFormat::Jpeg
        } else if spells(name, "webp") || spells(name, "image/webp") {
            ImageFormat::Webp
        } else {
            ImageFormat::Jpeg
        }
    }
}

impl vstd::std_specs::convert::FromSpecImpl<String> for ImageFormat {
    open spec fn obeys_from_spec() -> bool {
        true
    }

    open spec fn from_spec(val: String) -> ImageFormat {
        ImageFormat::of_name(val@)
    }
}

/// A transform request after every field has been resolved against the
/// configured bounds.
#[derive(Debug, Clone, Copy, PartialEq, Eq)]
pub struct ResizeParams {
    /// Transform mode.
    pub t: TransformMode,
    /// Width.
    pub w: u32,
    /// Height; absent until the geometry is resolved against a source image.
    pub h: Option<u32>,
    /// Whether the untouched original was asked for.
    pub o: bool,
    /// Blur radius, at most 50; zero means no blur.
    pub b: u32,
    /// Quality tier.
    pub q: ImageQuality,
}

/// Why a transform did not produce an image.
#[derive(Debug, Clone, Copy, PartialEq, Eq, Structural)]
pub enum ResizeError {
    /// The bytes decode neither as the declared format nor as the format
    /// their signature shows.
    UnknownFormat,
    /// The requested output format cannot be written on this path.
    UnsupportedFormat,
    /// In crop mode the target is larger than the source.
    CropExceedsSource,
    /// A buffer of the requested size cannot be addressed.
    TooLarge,
    /// A blur was asked for on pixels that are not 8-bit RGB or RGBA.
    UnsupportedLayout,
    /// The resampler reported an error.
    Resample,
    /// The encoder rejected the pixels.
    Encode,
}

impl ResizeError {
    pub open spec fn message_spec(self) -> Seq<char> {
        match self {
            ResizeError::UnknownFormat => "Unknown file format"@,
            ResizeError::UnsupportedFormat => "Unknown format"@,
            ResizeError::CropExceedsSource => "Crop target exceeds the source image"@,
            ResizeError::TooLarge => "Image dimensions are too large"@,
            ResizeError::UnsupportedLayout => "Pixel layout cannot be blurred"@,
            ResizeError::Resample => "Resampling failed"@,
            ResizeError::Encode => "Encoding failed"@,
        }
    }

    /// A sentence for logs and responses.
    pub fn message(&self) -> (s: String)
        ensures
            s@ == self.message_spec(),
    {
        match self {
            ResizeError::UnknownFormat => "Unknown file format".to_owned(),
            ResizeError::UnsupportedFormat => "Unknown format".to_owned(),
            ResizeError::CropExceedsSource => "Crop target exceeds the source image".to_owned(),
            ResizeError::TooLarge => "Image dimensions are too large".to_owned(),
            ResizeError::UnsupportedLayout => "Pixel layout cannot be blurred".to_owned(),
            ResizeError::Resample => "Resampling failed".to_owned(),
            ResizeError::Encode => "Encoding failed".to_owned(),
        }
    }
}

} // verus!
