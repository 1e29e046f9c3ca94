//! The URL-safe base-64 alphabet without padding: three bytes become four
//! characters, and a short tail of one or two bytes becomes two or three.

use vstd::prelude::*;

verus! {

/// The character that stands for a six-bit value: `A`-`Z`, `a`-`z`, `0`-`9`,
/// then `-` and `_`.
pub open spec fn sextet_char(v: int) -> char {
    if v < 26 {
        (65 + v) as char
    } else if v < 52 {
        (71 + v) as char
    } else if v < 62 {
        (v - 4) as char
    } else if v == 62 {
        '-'
    } else {
        '_'
    }
}

/// The encoding of a byte sequence, three bytes at a time.
pub open spec fn encoding(bytes: Seq<u8>) -> Seq<char>
    decreases bytes.len(),
{
    if bytes.len() == 0 {
        Seq::empty()
    } else if bytes.len() == 1 {
        seq![sextet_char(bytes[0] as int / 4), sextet_char((bytes[0] as int % 4) * 16)]
    } else if bytes.len() == 2 {
        seq![
            sextet_char(bytes[0] as int / 4),
            sextet_char((bytes[0] as int % 4) * 16 + bytes[1] as int / 16),
            sextet_char((bytes[1] as int % 16) * 4),
        ]
    } else {
        seq![
            sextet_char(bytes[0] as int / 4),
            sextet_char((bytes[0] as int % 4) * 16 + bytes[1] as int / 16),
            sextet_char((bytes[1] as int % 16) * 4 + bytes[2] as int / 64),
            sextet_char(bytes[2] as int % 64),
        ] + encoding(bytes.skip(3))
    }
}

/// The number of characters that `n` bytes encode to.
pub open spec fn encoded_len(n: nat) -> nat {
    4 * (n / 3) + if n % 3 == 0 {
        0nat
    } else {
        (n % 3 + 1) as nat
    }
}

pub proof fn lemma_encoding_len(bytes: Seq<u8>)
    ensures
        encoding(bytes).len() == encoded_len(bytes.len()),
    decreases bytes.len(),
{
    if bytes.len() >= 3 {
        lemma_encoding_len(bytes.skip(3));
    }
}

/// Distinct six-bit values have distinct characters.
pub proof fn lemma_sextet_char_injective(x: int, y: int)
    requires
        0 <= x < 64,
        0 <= y < 64,
        sextet_char(x) == sextet_char(y),
    ensures
        x == y,
{
    assert(sextet_char(x) as int == sextet_char(y) as int);
}

/// No two byte sequences share an encoding.
pub proof fn lemma_encoding_injective(a: Seq<u8>, b: Seq<u8>)
    requires
        encoding(a) == encoding(b),
    ensures
        a == b,
    decreases a.len(),
{
    lemma_encoding_len(a);
    lemma_encoding_len(b);
    assert(a.len() == b.len());
    let ea = encoding(a);
    let eb = encoding(b);
    if a.len() == 0 {
        assert(a =~= b);
    } else if a.len() == 1 {
        assert(ea[0] == eb[0]);
        assert(ea[1] == eb[1]);
        lemma_sextet_char_injective(a[0] as int / 4, b[0] as int / 4);
        lemma_sextet_char_injective((a[0] as int % 4) * 16, (b[0] as int % 4) * 16);
        assert(a =~= b);
    } else if a.len() == 2 {
        assert(ea[0] == eb[0]);
        assert(ea[1] == eb[1]);
        assert(ea[2] == eb[2]);
        lemma_sextet_char_injective(a[0] as int / 4, b[0] as int / 4);
        lemma_sextet_char_injective(
            (a[0] as int % 4) * 16 + a[1] as int / 16,
            (b[0] as int % 4) * 16 + b[1] as int / 16,
        );
        lemma_sextet_char_injective((a[1] as int % 16) * 4, (b[1] as int % 16) * 4);
        assert(a =~= b);
    } else {
        let ra = encoding(a.skip(3));
        let rb = encoding(b.skip(3));
        assert(ea[0] == eb[0]);
        assert(ea[1] == eb[1]);
        assert(ea[2] == eb[2]);
        assert(ea[3] == eb[3]);
        lemma_sextet_char_injective(a[0] as int / 4, b[0] as int / 4);
        lemma_sextet_char_injective(
            (a[0] as int % 4) * 16 + a[1] as int / 16,
            (b[0] as int % 4) * 16 + b[1] as int / 16,
        );
        lemma_sextet_char_injective(
            (a[1] as int % 16) * 4 + a[2] as int / 64,
            (b[1] as int % 16) * 4 + b[2] as int / 64,
        );
        lemma_sextet_char_injective(a[2] as int % 64, b[2] as int % 64);
        assert(ra =~= ea.skip(4));
        assert(rb =~= eb.skip(4));
        lemma_encoding_injective(a.skip(3), b.skip(3));
        assert forall|i: int| 0 <= i < a.len() implies a[i] == b[i] by {
            if i >= 3 {
                assert(a[i] == a.skip(3)[i - 3]);
                assert(b[i] == b.skip(3)[i - 3]);
            }
        }
        assert(a =~= b);
    }
}

fn sextet(v: u8) -> (c: char)
    requires
        v < 64,
    ensures
        c == sextet_char(v as int),
{
    if v < 26 {
        (65 + v) as char
    } else if v < 52 {
        (71 + v) as char
    } else if v < 62 {
        (v - 4) as char
    } else if v == 62 {
        '-'
    } else {
        '_'
    }
}

/// Encodes bytes in the URL-safe alphabet, without padding.
pub fn encode(bytes: &[u8]) -> (text: Vec<char>)
    ensures
        text@ == encoding(bytes@),
{
    let mut text: Vec<char> = Vec::new();
    let mut i: usize = 0;
    assert(bytes@.skip(0) =~= bytes@);
    while bytes.len() - i >= 3
        invariant
            i <= bytes@.len(),
            text@ + encoding(bytes@.skip(i as int)) == encoding(bytes@),
        decreases bytes@.len() - i,
    {
        let ghost rest = bytes@.skip(i as int);
        let b0: u8 = bytes[i];
        let b1: u8 = bytes[i + 1];
        let b2: u8 = bytes[i + 2];
        assert(rest[0] == b0 && rest[1] == b1 && rest[2] == b2);
        assert(rest.skip(3) =~= bytes@.skip(i + 3));
        let ghost before = text@;
        text.push(sextet(b0 / 4));
        text.push(sextet((b0 % 4) * 16 + b1 / 16));
        text.push(sextet((b1 % 16) * 4 + b2 / 64));
        text.push(sextet(b2 % 64));
        assert(text@ + encoding(bytes@.skip(i + 3)) =~= before + encoding(rest));
        i += 3;
    }
    let ghost rest = bytes@.skip(i as int);
    let ghost before = text@;
    if bytes.len() - i == 1 {
        let b0: u8 = bytes[i];
        assert(rest[0] == b0);
        text.push(sextet(b0 / 4));
        text.push(sextet((b0 % 4) * 16));
        assert(text@ =~= before + encoding(rest));
    } else if bytes.len() - i == 2 {
        let b0: u8 = bytes[i];
        let b1: u8 = bytes[i + 1];
        assert(rest[0] == b0 && rest[1] == b1);
        text.push(sextet(b0 / 4));
        text.push(sextet((b0 % 4) * 16 + b1 / 16));
        text.push(sextet((b1 % 16) * 4));
        assert(text@ =~= before + encoding(rest));
    } else {
        assert(text@ =~= before + encoding(rest));
    }
    text
}

} // verus!
