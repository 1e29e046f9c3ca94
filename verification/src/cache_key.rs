//! The storage key of a transformed image: the path of the original with a
//! segment put before the file name that spells the effective transform.
//! Equal transforms of one original share a key; different ones do not.

use vstd::prelude::*;
use crate::base64::{encode, encoding, lemma_encoding_injective};
use crate::config::Config;
use crate::text::{
    all_digits,
    copy_range,
    decimal_digits,
    find_last,
    is_digit,
    last_index_of,
    lemma_decimal_digits_value,
    push_decimal,
    string_from_chars,
    to_chars,
};
use crate::types::{ImageQuality, ResizeParams, TransformMode};
use crate::urls::{parsed_path, url_path};

verus! {

/// The three parts of an object path, as text.
pub struct PathParts {
    /// What stands before the slash that opens the file name; absent where
    /// no slash does.
    pub prefix: Option<String>,
    pub file_name: String,
    pub extension: String,
}

/// The parts of a path as character sequences.
pub struct PartsText {
    pub prefix: Option<Seq<char>>,
    pub file_name: Seq<char>,
    pub extension: Seq<char>,
}

impl PathParts {
    pub open spec fn text(&self) -> PartsText {
        PartsText {
            prefix: match self.prefix {
                Some(p) => Some(p@),
                None => None,
            },
            file_name: self.file_name@,
            extension: self.extension@,
        }
    }
}

/// A path splits at its last dot into name and extension, and the name at
/// the last slash before that dot into prefix and file name. A path without
/// a dot has no parts.
pub open spec fn path_parts(path: Seq<char>) -> Option<PartsText> {
    let dot = last_index_of(path, '.');
    if dot < 0 {
        None
    } else {
        let slash = last_index_of(path.take(dot), '/');
        if slash < 0 {
            Some(
                PartsText {
                    prefix: None,
                    file_name: path.take(dot),
                    extension: path.skip(dot + 1),
                },
            )
        } else {
            Some(
                PartsText {
                    prefix: Some(path.take(slash)),
                    file_name: path.subrange(slash + 1, dot),
                    extension: path.skip(dot + 1),
                },
            )
        }
    }
}

/// Splits an object path into prefix, file name and extension.
pub fn split_path(path: &str) -> (parts: Option<PathParts>)
    ensures
        match parts {
            Some(p) => path_parts(path@) == Some(p.text()),
            None => path_parts(path@) is None,
        },
{
    let chars = to_chars(path);
    let all = chars.as_slice();
    assert(all@.take(all@.len() as int) =~= all@);
    let dot: usize = match find_last(all, all.len(), '.') {
        Some(i) => i,
        None => {
            return None;
        },
    };
    let extension = copy_range(all, dot + 1, all.len());
    assert(all@.subrange(dot + 1, all@.len() as int) =~= all@.skip(dot + 1));
    match find_last(all, dot, '/') {
        Some(slash) => {
            let prefix = copy_range(all, 0, slash);
            let file_name = copy_range(all, slash + 1, dot);
            assert(all@.subrange(0, slash as int) =~= all@.take(slash as int));
            Some(PathParts { prefix: Some(prefix), file_name, extension })
        },
        None => {
            let file_name = copy_range(all, 0, dot);
            assert(all@.subrange(0, dot as int) =~= all@.take(dot as int));
            Some(PathParts { prefix: None, file_name, extension })
        },
    }
}

/// The end of a record: the blur radius and the closing brace.
pub open spec fn record_from_blur(blur: u32) -> Seq<char> {
    decimal_digits(blur as nat) + "}"@
}

/// A record from its quality code on.
pub open spec fn record_from_quality(quality: ImageQuality, blur: u32) -> Seq<char> {
    quality.code() + ("\",\"b\":"@ + record_from_blur(blur))
}

/// A record from its mode code on.
pub open spec fn record_from_mode(mode: TransformMode, quality: ImageQuality, blur: u32) -> Seq<
    char,
> {
    mode.code() + ("\",\"q\":\""@ + record_from_quality(quality, blur))
}

/// A record from its height on.
pub open spec fn record_from_height(
    height: u32,
    mode: TransformMode,
    quality: ImageQuality,
    blur: u32,
) -> Seq<char> {
    decimal_digits(height as nat) + (",\"m\":\""@ + record_from_mode(mode, quality, blur))
}

/// The effective transform as one line of text with its five fields in fixed
/// order: `{"w":630,"h":410,"m":"c","q":"h","b":5}` for a 630 by 410 crop of
/// high quality and blur radius 5.
pub open spec fn transform_record(
    width: u32,
    height: u32,
    mode: TransformMode,
    quality: ImageQuality,
    blur: u32,
) -> Seq<char> {
    "{\"w\":"@ + (decimal_digits(width as nat) + (",\"h\":"@ + record_from_height(
        height,
        mode,
        quality,
        blur,
    )))
}

/// Each character as the byte of the same number.
pub open spec fn ascii_bytes(s: Seq<char>) -> Seq<u8> {
    Seq::new(s.len(), |i: int| s[i] as u8)
}

pub open spec fn is_ascii_text(s: Seq<char>) -> bool {
    forall|i: int| 0 <= i < s.len() ==> (#[trigger] s[i] as int) < 128
}

/// The segment that stands for a transform in a key.
pub open spec fn transform_segment(
    width: u32,
    height: u32,
    mode: TransformMode,
    quality: ImageQuality,
    blur: u32,
) -> Seq<char> {
    encoding(ascii_bytes(transform_record(width, height, mode, quality, blur)))
}

/// A key from the parts of a path and the segment of a transform.
pub open spec fn assemble(parts: PartsText, segment: Seq<char>) -> Seq<char> {
    let tail = segment + ("/"@ + (parts.file_name + ("."@ + parts.extension)));
    match parts.prefix {
        Some(prefix) => prefix + ("/"@ + tail),
        None => tail,
    }
}

/// The key of a transform of the object at `path`; none where the path has
/// no extension.
pub open spec fn cache_key(
    path: Seq<char>,
    width: u32,
    height: u32,
    mode: TransformMode,
    quality: ImageQuality,
    blur: u32,
) -> Option<Seq<char>> {
    match path_parts(path) {
        Some(parts) => Some(assemble(parts, transform_segment(width, height, mode, quality, blur))),
        None => None,
    }
}

/// The height that a request stands for in a key: its own, else the
/// configured default.
pub open spec fn effective_height(params: &ResizeParams, config: &Config) -> u32 {
    match params.h {
        Some(height) => height,
        None => config.default_height,
    }
}

/// The effective transform of a request: the five fields that a key spells.
#[derive(Debug, Clone, Copy, PartialEq, Eq)]
pub struct ImageProcessParams {
    pub w: u32,
    pub h: u32,
    pub m: TransformMode,
    pub q: ImageQuality,
    pub b: u32,
}

impl ImageProcessParams {
    pub open spec fn of(params: &ResizeParams, config: &Config) -> ImageProcessParams {
        ImageProcessParams {
            w: params.w,
            h: effective_height(params, config),
            m: params.t,
            q: params.q,
            b: params.b,
        }
    }

    /// The record of the transform.
    pub open spec fn record(self) -> Seq<char> {
        transform_record(self.w, self.h, self.m, self.q, self.b)
    }

    pub fn from_request(params: &ResizeParams, config: &Config) -> (effective: Self)
        ensures
            effective == Self::of(params, config),
    {
        let h: u32 = match params.h {
            Some(height) => height,
            None => config.default_height,
        };
        ImageProcessParams { w: params.w, h, m: params.t, q: params.q, b: params.b }
    }

    /// Writes the record of the transform.
    pub fn to_json(&self) -> (record: Vec<u8>)
        ensures
            record@ == ascii_bytes(self.record()),
    {
        write_record(self.w, self.h, self.m, self.q, self.b)
    }
}

/// The key of a request for the object at `path`: the key of its effective
/// transform.
pub open spec fn request_key(path: Seq<char>, params: &ResizeParams, config: &Config) -> Option<
    Seq<char>,
> {
    let effective = ImageProcessParams::of(params, config);
    cache_key(path, effective.w, effective.h, effective.m, effective.q, effective.b)
}

fn push_text(out: &mut Vec<char>, s: &str)
    ensures
        final(out)@ == old(out)@ + s@,
{
    let chars = to_chars(s);
    let mut i: usize = 0;
    assert(out@ =~= old(out)@ + chars@.take(0));
    while i < chars.len()
        invariant
            i <= chars@.len(),
            out@ == old(out)@ + chars@.take(i as int),
        decreases chars@.len() - i,
    {
        out.push(chars[i]);
        assert(out@ =~= old(out)@ + chars@.take(i + 1));
        i += 1;
    }
    assert(chars@.take(i as int) =~= chars@);
}

proof fn lemma_digits_are_ascii(n: nat)
    ensures
        is_ascii_text(decimal_digits(n)),
{
    lemma_decimal_digits_value(n);
    let s = decimal_digits(n);
    assert forall|i: int| 0 <= i < s.len() implies (#[trigger] s[i] as int) < 128 by {
        assert(is_digit(s[i]));
    }
}

proof fn lemma_record_is_ascii(
    width: u32,
    height: u32,
    mode: TransformMode,
    quality: ImageQuality,
    blur: u32,
)
    ensures
        is_ascii_text(transform_record(width, height, mode, quality, blur)),
{
    reveal_strlit("{\"w\":");
    reveal_strlit(",\"h\":");
    reveal_strlit(",\"m\":\"");
    reveal_strlit("\",\"q\":\"");
    reveal_strlit("\",\"b\":");
    reveal_strlit("}");
    reveal_strlit("f");
    reveal_strlit("c");
    reveal_strlit("l");
    reveal_strlit("m");
    reveal_strlit("h");
    reveal_strlit("b");
    lemma_digits_are_ascii(width as nat);
    lemma_digits_are_ascii(height as nat);
    lemma_digits_are_ascii(blur as nat);
    let from_blur = record_from_blur(blur);
    assert(is_ascii_text(from_blur));
    let from_quality = record_from_quality(quality, blur);
    assert(is_ascii_text("\",\"b\":"@ + from_blur));
    assert(is_ascii_text(from_quality));
    let from_mode = record_from_mode(mode, quality, blur);
    assert(is_ascii_text("\",\"q\":\""@ + from_quality));
    assert(is_ascii_text(from_mode));
    let from_height = record_from_height(height, mode, quality, blur);
    assert(is_ascii_text(",\"m\":\""@ + from_mode));
    assert(is_ascii_text(from_height));
    assert(is_ascii_text(",\"h\":"@ + from_height));
    assert(is_ascii_text(decimal_digits(width as nat) + (",\"h\":"@ + from_height)));
}

/// Writes the record of a transform.
pub fn write_record(
    width: u32,
    height: u32,
    mode: TransformMode,
    quality: ImageQuality,
    blur: u32,
) -> (record: Vec<u8>)
    ensures
        record@ == ascii_bytes(transform_record(width, height, mode, quality, blur)),
{
    let mut text: Vec<char> = Vec::new();
    push_text(&mut text, "{\"w\":");
    push_decimal(&mut text, width);
    push_text(&mut text, ",\"h\":");
    push_decimal(&mut text, height);
    push_text(&mut text, ",\"m\":\"");
    push_text(&mut text, mode.to_string().as_str());
    push_text(&mut text, "\",\"q\":\"");
    push_text(&mut text, quality.to_string().as_str());
    push_text(&mut text, "\",\"b\":");
    push_decimal(&mut text, blur);
    push_text(&mut text, "}");
    assert(text@ =~= transform_record(width, height, mode, quality, blur));
    proof {
        lemma_record_is_ascii(width, height, mode, quality, blur);
    }
    let mut record: Vec<u8> = Vec::new();
    let mut i: usize = 0;
    while i < text.len()
        invariant
            i <= text@.len(),
            is_ascii_text(text@),
            record@.len() == i,
            forall|j: int| 0 <= j < i ==> record@[j] == text@[j] as u8,
        decreases text@.len() - i,
    {
        let c = text[i];
        assert((text@[i as int] as int) < 128);
        record.push(c as u8);
        i += 1;
    }
    assert(record@ =~= ascii_bytes(text@));
    record
}

/// The key under which a transform of the object at `path` is stored.
pub fn derive_key(path: &str, params: &ResizeParams, config: &Config) -> (key: Option<String>)
    ensures
        match key {
            Some(text) => request_key(path@, params, config) == Some(text@),
            None => request_key(path@, params, config) is None,
        },
{
    let parts = match split_path(path) {
        Some(parts) => parts,
        None => {
            return None;
        },
    };
    let record = ImageProcessParams::from_request(params, config).to_json();
    let segment = encode(record.as_slice());
    let mut key: Vec<char> = Vec::new();
    match &parts.prefix {
        Some(prefix) => {
            push_text(&mut key, prefix.as_str());
            push_text(&mut key, "/");
        },
        None => {},
    }
    let ghost head = key@;
    let mut i: usize = 0;
    while i < segment.len()
        invariant
            i <= segment@.len(),
            key@ == head + segment@.take(i as int),
        decreases segment@.len() - i,
    {
        key.push(segment[i]);
        assert(key@ =~= head + segment@.take(i + 1));
        i += 1;
    }
    assert(segment@.take(i as int) =~= segment@);
    push_text(&mut key, "/");
    push_text(&mut key, parts.file_name.as_str());
    push_text(&mut key, ".");
    push_text(&mut key, parts.extension.as_str());
    assert(key@ =~= assemble(parts.text(), segment@));
    Some(string_from_chars(key.as_slice()))
}

/// The key for the object that a URL points at: the key of the URL's path.
/// There is none where the URL does not parse or its path has no extension.
pub fn get_resized_image_key(url: &str, params: &ResizeParams, config: &Config) -> (key: Option<
    String,
>)
    ensures
        match url_path(url@) {
            Some(path) => match key {
                Some(text) => request_key(path, params, config) == Some(text@),
                None => request_key(path, params, config) is None,
            },
            None => key is None,
        },
{
    match parsed_path(url) {
        Some(path) => derive_key(path.as_str(), params, config),
        None => None,
    }
}

/// A run of digits ends where the first other character stands: two texts
/// that open with digit runs and agree as a whole agree on the runs.
proof fn lemma_digit_runs_agree(a: Seq<char>, x: Seq<char>, b: Seq<char>, y: Seq<char>)
    requires
        all_digits(a),
        all_digits(b),
        x.len() > 0 && !is_digit(x[0]),
        y.len() > 0 && !is_digit(y[0]),
        a + x == b + y,
    ensures
        a == b,
        x == y,
{
    let whole = a + x;
    if a.len() < b.len() {
        assert(whole[a.len() as int] == x[0]);
        assert((b + y)[a.len() as int] == b[a.len() as int]);
        assert(is_digit(b[a.len() as int]));
    } else if b.len() < a.len() {
        assert((b + y)[b.len() as int] == y[0]);
        assert(whole[b.len() as int] == a[b.len() as int]);
        assert(is_digit(a[b.len() as int]));
    }
    assert(a =~= whole.take(a.len() as int));
    assert(b =~= (b + y).take(b.len() as int));
    assert(x =~= whole.skip(a.len() as int));
    assert(y =~= (b + y).skip(b.len() as int));
}

proof fn lemma_equal_digits_equal_numbers(m: nat, n: nat)
    requires
        decimal_digits(m) == decimal_digits(n),
    ensures
        m == n,
{
    lemma_decimal_digits_value(m);
    lemma_decimal_digits_value(n);
}

/// Equal records spell equal transforms.
pub proof fn lemma_record_injective(
    w1: u32,
    h1: u32,
    m1: TransformMode,
    q1: ImageQuality,
    b1: u32,
    w2: u32,
    h2: u32,
    m2: TransformMode,
    q2: ImageQuality,
    b2: u32,
)
    requires
        transform_record(w1, h1, m1, q1, b1) == transform_record(w2, h2, m2, q2, b2),
    ensures
        w1 == w2,
        h1 == h2,
        m1 == m2,
        q1 == q2,
        b1 == b2,
{
    reveal_strlit("{\"w\":");
    reveal_strlit(",\"h\":");
    reveal_strlit(",\"m\":\"");
    reveal_strlit("\",\"q\":\"");
    reveal_strlit("\",\"b\":");
    reveal_strlit("}");
    reveal_strlit("f");
    reveal_strlit("c");
    reveal_strlit("l");
    reveal_strlit("m");
    reveal_strlit("h");
    reveal_strlit("b");
    lemma_decimal_digits_value(w1 as nat);
    lemma_decimal_digits_value(w2 as nat);
    lemma_decimal_digits_value(h1 as nat);
    lemma_decimal_digits_value(h2 as nat);
    lemma_decimal_digits_value(b1 as nat);
    lemma_decimal_digits_value(b2 as nat);
    let r1 = transform_record(w1, h1, m1, q1, b1);
    let r2 = transform_record(w2, h2, m2, q2, b2);

    let after_w1 = ",\"h\":"@ + record_from_height(h1, m1, q1, b1);
    let after_w2 = ",\"h\":"@ + record_from_height(h2, m2, q2, b2);
    assert(decimal_digits(w1 as nat) + after_w1 =~= r1.skip(5));
    assert(decimal_digits(w2 as nat) + after_w2 =~= r2.skip(5));
    assert(after_w1[0] == ',');
    assert(after_w2[0] == ',');
    lemma_digit_runs_agree(
        decimal_digits(w1 as nat),
        after_w1,
        decimal_digits(w2 as nat),
        after_w2,
    );
    lemma_equal_digits_equal_numbers(w1 as nat, w2 as nat);

    let after_h1 = ",\"m\":\""@ + record_from_mode(m1, q1, b1);
    let after_h2 = ",\"m\":\""@ + record_from_mode(m2, q2, b2);
    assert(decimal_digits(h1 as nat) + after_h1 =~= after_w1.skip(5));
    assert(decimal_digits(h2 as nat) + after_h2 =~= after_w2.skip(5));
    assert(after_h1[0] == ',');
    assert(after_h2[0] == ',');
    lemma_digit_runs_agree(
        decimal_digits(h1 as nat),
        after_h1,
        decimal_digits(h2 as nat),
        after_h2,
    );
    lemma_equal_digits_equal_numbers(h1 as nat, h2 as nat);

    let from_m1 = record_from_mode(m1, q1, b1);
    let from_m2 = record_from_mode(m2, q2, b2);
    assert(from_m1 =~= after_h1.skip(6));
    assert(from_m2 =~= after_h2.skip(6));
    assert(from_m1[0] == m1.code()[0]);
    assert(from_m2[0] == m2.code()[0]);
    assert(m1 == m2);

    let from_q1 = record_from_quality(q1, b1);
    let from_q2 = record_from_quality(q2, b2);
    assert(from_q1 =~= from_m1.skip(8));
    assert(from_q2 =~= from_m2.skip(8));
    assert(from_q1[0] == q1.code()[0]);
    assert(from_q2[0] == q2.code()[0]);
    assert(q1 == q2);

    let from_b1 = record_from_blur(b1);
    let from_b2 = record_from_blur(b2);
    assert(from_b1 =~= from_q1.skip(7));
    assert(from_b2 =~= from_q2.skip(7));
    assert("}"@[0] == '}');
    lemma_digit_runs_agree(decimal_digits(b1 as nat), "}"@, decimal_digits(b2 as nat), "}"@);
    lemma_equal_digits_equal_numbers(b1 as nat, b2 as nat);
}

proof fn lemma_ascii_byte_injective(c: char, d: char)
    requires
        (c as int) < 128,
        (d as int) < 128,
        c as u8 == d as u8,
    ensures
        c == d,
{
    assert((c as u8) as int == c as int);
    assert((d as u8) as int == d as int);
}

proof fn lemma_ascii_bytes_injective(s: Seq<char>, t: Seq<char>)
    requires
        is_ascii_text(s),
        is_ascii_text(t),
        ascii_bytes(s) == ascii_bytes(t),
    ensures
        s == t,
{
    assert(s.len() == ascii_bytes(s).len());
    assert(t.len() == ascii_bytes(t).len());
    assert forall|i: int| 0 <= i < s.len() implies s[i] == t[i] by {
        assert(ascii_bytes(s)[i] == s[i] as u8);
        assert(ascii_bytes(t)[i] == t[i] as u8);
        assert((s[i] as int) < 128);
        assert((t[i] as int) < 128);
        lemma_ascii_byte_injective(s[i], t[i]);
    }
    assert(s =~= t);
}

/// Two keys of one path that agree as text agree on the transform segment.
proof fn lemma_assemble_cancels(parts: PartsText, first: Seq<char>, second: Seq<char>)
    requires
        assemble(parts, first) == assemble(parts, second),
    ensures
        first == second,
{
    let rest = "/"@ + (parts.file_name + ("."@ + parts.extension));
    let head = match parts.prefix {
        Some(prefix) => prefix + "/"@,
        None => Seq::<char>::empty(),
    };
    let one = assemble(parts, first);
    let two = assemble(parts, second);
    assert(one =~= head + (first + rest));
    assert(two =~= head + (second + rest));
    assert(one.len() == head.len() + first.len() + rest.len());
    assert(two.len() == head.len() + second.len() + rest.len());
    assert(first =~= one.subrange(head.len() as int, (head.len() + first.len()) as int));
    assert(second =~= two.subrange(head.len() as int, (head.len() + second.len()) as int));
}

/// Keys tell transforms apart: where two transforms of one object have the
/// same key, they have the same width, height, mode, quality and blur.
pub proof fn lemma_cache_key_separates(
    path: Seq<char>,
    w1: u32,
    h1: u32,
    m1: TransformMode,
    q1: ImageQuality,
    b1: u32,
    w2: u32,
    h2: u32,
    m2: TransformMode,
    q2: ImageQuality,
    b2: u32,
)
    requires
        cache_key(path, w1, h1, m1, q1, b1) is Some,
        cache_key(path, w1, h1, m1, q1, b1) == cache_key(path, w2, h2, m2, q2, b2),
    ensures
        w1 == w2,
        h1 == h2,
        m1 == m2,
        q1 == q2,
        b1 == b2,
{
    let parts = path_parts(path)->0;
    let s1 = transform_segment(w1, h1, m1, q1, b1);
    let s2 = transform_segment(w2, h2, m2, q2, b2);
    lemma_assemble_cancels(parts, s1, s2);
    let r1 = transform_record(w1, h1, m1, q1, b1);
    let r2 = transform_record(w2, h2, m2, q2, b2);
    lemma_encoding_injective(ascii_bytes(r1), ascii_bytes(r2));
    lemma_record_is_ascii(w1, h1, m1, q1, b1);
    lemma_record_is_ascii(w2, h2, m2, q2, b2);
    lemma_ascii_bytes_injective(r1, r2);
    lemma_record_injective(w1, h1, m1, q1, b1, w2, h2, m2, q2, b2);
}

/// Requests that come to the same effective transform of one object share
/// their key.
pub proof fn lemma_same_transform_same_key(
    path: Seq<char>,
    first: ResizeParams,
    second: ResizeParams,
    config: &Config,
)
    requires
        ImageProcessParams::of(&first, config) == ImageProcessParams::of(&second, config),
    ensures
        request_key(path, &first, config) == request_key(path, &second, config),
{
}

/// Requests for one object that share a key come to the same effective
/// transform: a key differs wherever the width, the height, the mode, the
/// quality or the blur does.
pub proof fn lemma_same_key_same_transform(
    path: Seq<char>,
    first: ResizeParams,
    second: ResizeParams,
    config: &Config,
)
    requires
        request_key(path, &first, config) is Some,
        request_key(path, &first, config) == request_key(path, &second, config),
    ensures
        ImageProcessParams::of(&first, config) == ImageProcessParams::of(&second, config),
{
    let a = ImageProcessParams::of(&first, config);
    let b = ImageProcessParams::of(&second, config);
    lemma_cache_key_separates(path, a.w, a.h, a.m, a.q, a.b, b.w, b.h, b.m, b.q, b.b);
}

} // verus!
