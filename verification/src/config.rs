//! Process-wide settings: the bounds and defaults that requests are resolved
//! against. A `Config` is built once and only read afterwards.

use vstd::prelude::*;
use crate::text::{parse_u32, parse_unsigned, str_equals, string_from_chars, to_chars};
use crate::types::{ImageQuality, TransformMode};

verus! {

pub struct Config {
    pub rounding_value: u32,
    pub min_width: u32,
    pub min_height: u32,
    pub max_width: u32,
    pub max_height: u32,
    pub default_width: u32,
    pub default_height: u32,
    pub default_quality: ImageQuality,
    pub default_transform: TransformMode,
    pub valid_extensions: Vec<String>,
}

/// The settings as text, each one present or not, as an operator gave them.
pub struct RawConfig {
    pub rounding_value: Option<String>,
    pub min_width: Option<String>,
    pub min_height: Option<String>,
    pub max_width: Option<String>,
    pub max_height: Option<String>,
    pub default_width: Option<String>,
    pub default_height: Option<String>,
    pub default_quality: Option<String>,
    pub default_transform: Option<String>,
    pub valid_extensions: Option<String>,
}

/// The character sequences of a list of strings.
pub open spec fn texts(strings: Seq<String>) -> Seq<Seq<char>> {
    Seq::new(strings.len(), |i: int| strings[i]@)
}

/// The pieces of `s` that lie between occurrences of `sep`: one more piece
/// than there are separators, empty pieces included.
pub open spec fn split_on(s: Seq<char>, sep: char) -> Seq<Seq<char>>
    decreases s.len(),
{
    if s.len() == 0 {
        seq![Seq::<char>::empty()]
    } else {
        let before = split_on(s.drop_last(), sep);
        if s.last() == sep {
            before.push(Seq::<char>::empty())
        } else {
            before.drop_last().push(before.last().push(s.last()))
        }
    }
}

pub fn split(s: &str, sep: char) -> (pieces: Vec<String>)
    ensures
        texts(pieces@) == split_on(s@, sep),
{
    let chars = to_chars(s);
    let mut pieces: Vec<String> = Vec::new();
    let mut current: Vec<char> = Vec::new();
    let mut i: usize = 0;
    assert(chars@.take(0).len() == 0);
    assert(texts(pieces@).push(current@) =~= split_on(chars@.take(0), sep));
    while i < chars.len()
        invariant
            i <= chars@.len(),
            texts(pieces@).push(current@) == split_on(chars@.take(i as int), sep),
        decreases chars@.len() - i,
    {
        let c = chars[i];
        let ghost upto = chars@.take(i + 1);
        assert(upto.drop_last() =~= chars@.take(i as int));
        assert(upto.last() == c);
        let ghost before = split_on(chars@.take(i as int), sep);
        assert(before.last() == current@);
        assert(before.drop_last() =~= texts(pieces@));
        if c == sep {
            let piece = string_from_chars(current.as_slice());
            pieces.push(piece);
            current = Vec::new();
            assert(texts(pieces@) =~= before);
        } else {
            current.push(c);
        }
        i += 1;
        assert(texts(pieces@).push(current@) =~= split_on(upto, sep));
    }
    assert(chars@.take(i as int) =~= chars@);
    let piece = string_from_chars(current.as_slice());
    let ghost done = texts(pieces@).push(current@);
    pieces.push(piece);
    assert(texts(pieces@) =~= done);
    pieces
}

/// The number that a setting spells, or the fallback where the setting is
/// absent or is not a number.
pub open spec fn number_or(setting: Option<String>, fallback: u32) -> u32 {
    match setting {
        Some(text) => match parse_unsigned(text@, u32::MAX as int) {
            Some(n) => n as u32,
            None => fallback,
        },
        None => fallback,
    }
}

fn read_number(setting: &Option<String>, fallback: u32) -> (n: u32)
    ensures
        n == number_or(*setting, fallback),
{
    match setting {
        Some(text) => {
            let chars = to_chars(text.as_str());
            match parse_u32(chars.as_slice()) {
                Some(n) => n,
                None => fallback,
            }
        },
        None => fallback,
    }
}

/// A tier is set by its one-letter code only; anything else leaves `High`.
pub open spec fn quality_setting(setting: Option<String>) -> ImageQuality {
    match setting {
        Some(text) => if text@ == "l"@ {
            ImageQuality::Low
        } else if text@ == "m"@ {
            ImageQuality::Medium
        } else if text@ == "b"@ {
            ImageQuality::Best
        } else {
            ImageQuality::High
        },
        None => ImageQuality::High,
    }
}

/// A mode is set by its one-letter code only; anything else leaves `Fit`.
pub open spec fn transform_setting(setting: Option<String>) -> TransformMode {
    match setting {
        Some(text) => if text@ == "c"@ {
            TransformMode::Crop
        } else {
            TransformMode::Fit
        },
        None => TransformMode::Fit,
    }
}

/// The extensions accepted when none are configured.
pub open spec fn default_extensions() -> Seq<Seq<char>> {
    seq!["jpg"@, "jpeg"@, "png"@, "gif"@, "webp"@]
}

pub open spec fn extensions_setting(setting: Option<String>) -> Seq<Seq<char>> {
    match setting {
        Some(text) => split_on(text@, ','),
        None => default_extensions(),
    }
}

fn builtin_extensions() -> (list: Vec<String>)
    ensures
        texts(list@) == default_extensions(),
{
    let mut list: Vec<String> = Vec::new();
    list.push("jpg".to_owned());
    list.push("jpeg".to_owned());
    list.push("png".to_owned());
    list.push("gif".to_owned());
    list.push("webp".to_owned());
    assert(texts(list@) =~= default_extensions());
    list
}

impl Config {
    /// The accepted file extensions as character sequences.
    pub open spec fn extensions(&self) -> Seq<Seq<char>> {
        texts(self.valid_extensions@)
    }

    /// Every bound and default as documented, the accepted extensions aside.
    pub open spec fn has_default_numbers(&self) -> bool {
        &&& self.rounding_value == 10
        &&& self.min_width == 100
        &&& self.min_height == 100
        &&& self.max_width == 4100
        &&& self.max_height == 4100
        &&& self.default_width == 640
        &&& self.default_height == 400
        &&& self.default_quality == ImageQuality::High
        &&& self.default_transform == TransformMode::Fit
    }

    /// Reads each setting from its text. A number that is absent or does not
    /// parse leaves the documented default in place, and so does a code that
    /// is not recognised.
    pub fn new(raw: &RawConfig) -> (config: Self)
        ensures
            config.rounding_value == number_or(raw.rounding_value, 10),
            config.min_width == number_or(raw.min_width, 100),
            config.min_height == number_or(raw.min_height, 100),
            config.max_width == number_or(raw.max_width, 4100),
            config.max_height == number_or(raw.max_height, 4100),
            config.default_width == number_or(raw.default_width, 640),
            config.default_height == number_or(raw.default_height, 400),
            config.default_quality == quality_setting(raw.default_quality),
            config.default_transform == transform_setting(raw.default_transform),
            config.extensions() == extensions_setting(raw.valid_extensions),
    {
        let default_quality = match &raw.default_quality {
            Some(text) => {
                if str_equals(text.as_str(), "l") {
                    ImageQuality::Low
                } else if str_equals(text.as_str(), "m") {
                    ImageQuality::Medium
                } else if str_equals(text.as_str(), "b") {
                    ImageQuality::Best
                } else {
                    ImageQuality::High
                }
            },
            None => ImageQuality::High,
        };
        let default_transform = match &raw.default_transform {
            Some(text) => {
                if str_equals(text.as_str(), "c") {
                    TransformMode::Crop
                } else {
                    TransformMode::Fit
                }
            },
            None => TransformMode::Fit,
        };
        let valid_extensions = match &raw.valid_extensions {
            Some(text) => split(text.as_str(), ','),
            None => builtin_extensions(),
        };
        Config {
            rounding_value: read_number(&raw.rounding_value, 10),
            min_width: read_number(&raw.min_width, 100),
            min_height: read_number(&raw.min_height, 100),
            max_width: read_number(&raw.max_width, 4100),
            max_height: read_number(&raw.max_height, 4100),
            default_width: read_number(&raw.default_width, 640),
            default_height: read_number(&raw.default_height, 400),
            default_quality,
            default_transform,
            valid_extensions,
        }
    }

    /// Whether a file extension is among the accepted ones.
    pub fn accepts_extension(&self, ext: &str) -> (accepted: bool)
        ensures
            accepted == self.extensions().contains(ext@),
    {
        let mut i: usize = 0;
        while i < self.valid_extensions.len()
            invariant
                i <= self.valid_extensions@.len(),
                forall|j: int| 0 <= j < i ==> self.extensions()[j] != ext@,
            decreases self.valid_extensions@.len() - i,
        {
            if str_equals(self.valid_extensions[i].as_str(), ext) {
                assert(self.extensions()[i as int] == ext@);
                return true;
            }
            i += 1;
        }
        false
    }
}

impl Default for Config {
    fn default() -> (config: Self)
        ensures
            config.has_default_numbers(),
            config.extensions() == default_extensions(),
    {
        Config {
            rounding_value: 10,
            min_width: 100,
            min_height: 100,
            max_width: 4100,
            max_height: 4100,
            default_width: 640,
            default_height: 400,
            default_quality: ImageQuality::High,
            default_transform: TransformMode::Fit,
            valid_extensions: builtin_extensions(),
        }
    }
}

} // verus!
