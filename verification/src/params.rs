//! From the query of a request to a resolved transform request.

use vstd::prelude::*;
use crate::config::Config;
use crate::limit::{clamp_and_round, clamp_and_round_spec};
use crate::text::{parse_u32, parse_u8, parse_unsigned, str_equals, to_chars};
use crate::types::{ImageQuality, ResizeParams, TransformMode};
use crate::urls::{pair_texts, query_pairs, url_query_pairs};

verus! {

/// The largest blur radius a request can ask for.
pub const MAX_BLUR: u32 = 50;

/// The value of the last pair named `key`: where a name occurs twice, the
/// later value counts.
pub open spec fn lookup(pairs: Seq<(Seq<char>, Seq<char>)>, key: Seq<char>) -> Option<Seq<char>>
    decreases pairs.len(),
{
    if pairs.len() == 0 {
        None
    } else if pairs.last().0 == key {
        Some(pairs.last().1)
    } else {
        lookup(pairs.drop_last(), key)
    }
}

pub open spec fn resolved_mode(value: Option<Seq<char>>, config: &Config) -> TransformMode {
    match value {
        Some(name) => match TransformMode::parse(name) {
            Some(mode) => mode,
            None => config.default_transform,
        },
        None => config.default_transform,
    }
}

pub open spec fn resolved_quality(value: Option<Seq<char>>, config: &Config) -> ImageQuality {
    match value {
        Some(name) => match ImageQuality::parse(name) {
            Some(quality) => quality,
            None => config.default_quality,
        },
        None => config.default_quality,
    }
}

/// A width that is given and parses is rounded and clamped; otherwise the
/// configured default stands as it is.
pub open spec fn resolved_width(value: Option<Seq<char>>, config: &Config) -> int {
    match value {
        Some(text) => match parse_unsigned(text, u32::MAX as int) {
            Some(n) => clamp_and_round_spec(
                n,
                config.min_width as int,
                config.max_width as int,
                config.rounding_value as int,
            ),
            None => config.default_width as int,
        },
        None => config.default_width as int,
    }
}

/// A height that is given and parses is rounded and clamped; otherwise it
/// stays open.
pub open spec fn resolved_height(value: Option<Seq<char>>, config: &Config) -> Option<int> {
    match value {
        Some(text) => match parse_unsigned(text, u32::MAX as int) {
            Some(n) => Some(
                clamp_and_round_spec(
                    n,
                    config.min_height as int,
                    config.max_height as int,
                    config.rounding_value as int,
                ),
            ),
            None => None,
        },
        None => None,
    }
}

/// A blur radius is a number of at most 255, pinned to at most 50 and never
/// rounded.
pub open spec fn resolved_blur(value: Option<Seq<char>>) -> int {
    match value {
        Some(text) => match parse_unsigned(text, u8::MAX as int) {
            Some(n) => clamp_and_round_spec(n, 0, MAX_BLUR as int, 1),
            None => 0,
        },
        None => 0,
    }
}

/// What the pairs of a query resolve to.
pub open spec fn resolved(pairs: Seq<(Seq<char>, Seq<char>)>, config: &Config) -> ResizeParams {
    ResizeParams {
        t: resolved_mode(lookup(pairs, "t"@), config),
        w: resolved_width(lookup(pairs, "w"@), config) as u32,
        h: match resolved_height(lookup(pairs, "h"@), config) {
            Some(height) => Some(height as u32),
            None => None,
        },
        o: lookup(pairs, "o"@) == Some("true"@),
        b: resolved_blur(lookup(pairs, "b"@)) as u32,
        q: resolved_quality(lookup(pairs, "q"@), config),
    }
}

/// The value of the last pair with the given name.
pub fn find_value<'a>(pairs: &'a Vec<(String, String)>, key: &str) -> (value: Option<&'a String>)
    ensures
        match value {
            Some(text) => lookup(pair_texts(pairs@), key@) == Some(text@),
            None => lookup(pair_texts(pairs@), key@) is None,
        },
{
    let ghost all = pair_texts(pairs@);
    let mut found: Option<&'a String> = None;
    let mut i: usize = 0;
    assert(all.take(0).len() == 0);
    while i < pairs.len()
        invariant
            i <= pairs@.len(),
            all == pair_texts(pairs@),
            match found {
                Some(text) => lookup(all.take(i as int), key@) == Some(text@),
                None => lookup(all.take(i as int), key@) is None,
            },
        decreases pairs@.len() - i,
    {
        let ghost upto = all.take(i + 1);
        assert(upto.drop_last() =~= all.take(i as int));
        assert(upto.last() == (pairs@[i as int].0@, pairs@[i as int].1@));
        if str_equals(pairs[i].0.as_str(), key) {
            found = Some(&pairs[i].1);
        }
        i += 1;
    }
    assert(all.take(i as int) =~= all);
    found
}

impl ResizeParams {
    /// Resolves the pairs of a query against the configuration. Names other
    /// than `t`, `w`, `h`, `o`, `b` and `q` are ignored, and a value that does
    /// not parse counts as absent.
    pub fn from_query(pairs: &Vec<(String, String)>, config: &Config) -> (params: Self)
        ensures
            params == resolved(pair_texts(pairs@), config),
            params.b <= MAX_BLUR,
            config.min_width <= config.default_width <= config.max_width ==> config.min_width
                <= params.w <= config.max_width,
            config.min_height <= config.max_height ==> (params.h matches Some(height)
                ==> config.min_height <= height <= config.max_height),
    {
        let t = match find_value(pairs, "t") {
            Some(name) => match TransformMode::from_name(name.as_str()) {
                Some(mode) => mode,
                None => config.default_transform,
            },
            None => config.default_transform,
        };
        let w = match find_value(pairs, "w") {
            Some(text) => {
                let chars = to_chars(text.as_str());
                match parse_u32(chars.as_slice()) {
                    Some(n) => clamp_and_round(
                        n,
                        config.min_width,
                        config.max_width,
                        config.rounding_value,
                    ),
                    None => config.default_width,
                }
            },
            None => config.default_width,
        };
        let h = match find_value(pairs, "h") {
            Some(text) => {
                let chars = to_chars(text.as_str());
                match parse_u32(chars.as_slice()) {
                    Some(n) => Some(
                        clamp_and_round(
                            n,
                            config.min_height,
                            config.max_height,
                            config.rounding_value,
                        ),
                    ),
                    None => None,
                }
            },
            None => None,
        };
        let o = match find_value(pairs, "o") {
            Some(text) => str_equals(text.as_str(), "true"),
            None => false,
        };
        let b = match find_value(pairs, "b") {
            Some(text) => {
                let chars = to_chars(text.as_str());
                match parse_u8(chars.as_slice()) {
                    Some(n) => clamp_and_round(n as u32, 0, MAX_BLUR, 1),
                    None => 0,
                }
            },
            None => 0,
        };
        let q = match find_value(pairs, "q") {
            Some(name) => match ImageQuality::from_name(name.as_str()) {
                Some(quality) => quality,
                None => config.default_quality,
            },
            None => config.default_quality,
        };
        ResizeParams { t, w, h, o, b, q }
    }

    /// Resolves the query of a request URL. A URL that does not parse is the
    /// only failure; no request is produced for it.
    pub fn from_url(url: &str, config: &Config) -> (result: Result<Self, String>)
        ensures
            match url_query_pairs(url@) {
                Some(pairs) => result matches Ok(params) && params == resolved(pairs, config),
                None => result matches Err(message) && message@ == "Failed to parse URL"@,
            },
            result matches Ok(params) ==> {
                &&& params.b <= MAX_BLUR
                &&& config.min_width <= config.default_width <= config.max_width
                    ==> config.min_width <= params.w <= config.max_width
                &&& config.min_height <= config.max_height ==> (params.h matches Some(height)
                    ==> config.min_height <= height <= config.max_height)
            },
    {
        match query_pairs(url) {
            Some(pairs) => Ok(Self::from_query(&pairs, config)),
            None => Err("Failed to parse URL".to_owned()),
        }
    }
}

} // verus!
