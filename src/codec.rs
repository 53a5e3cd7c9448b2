//! Base64 (standard alphabet, with padding) as used on the wire.

use base64::Engine;
use vstd::prelude::*;

verus! {

/// The character that stands for a six-bit value `v` (`0 <= v < 64`)
/// in the standard base64 alphabet `A-Z a-z 0-9 + /`.
pub open spec fn sextet_code(v: int) -> u32 {
    if v < 26 {
        (65 + v) as u32
    } else if v < 52 {
        (97 + v - 26) as u32
    } else if v < 62 {
        (48 + v - 52) as u32
    } else if v == 62 {
        43
    } else {
        47
    }
}

pub open spec fn sextet_char(v: int) -> char {
    sextet_code(v) as char
}

/// The padding character.
pub open spec fn pad_char() -> char {
    '='
}

/// The base64 text of a byte string: each group of three bytes becomes four
/// characters; a final group of one or two bytes is padded with `=`.
pub open spec fn base64_encoding(b: Seq<u8>) -> Seq<char>
    decreases b.len(),
{
    if b.len() == 0 {
        seq![]
    } else if b.len() == 1 {
        seq![sextet_char((b[0] as int) / 4), sextet_char(((b[0] as int) % 4) * 16), pad_char(), pad_char()]
    } else if b.len() == 2 {
        seq![
            sextet_char((b[0] as int) / 4),
            sextet_char(((b[0] as int) % 4) * 16 + (b[1] as int) / 16),
            sextet_char(((b[1] as int) % 16) * 4),
            pad_char(),
        ]
    } else {
        seq![
            sextet_char((b[0] as int) / 4),
            sextet_char(((b[0] as int) % 4) * 16 + (b[1] as int) / 16),
            sextet_char(((b[1] as int) % 16) * 4 + (b[2] as int) / 64),
            sextet_char((b[2] as int) % 64),
        ] + base64_encoding(b.skip(3))
    }
}

/// Relies on base64's `STANDARD` engine `encode`: standard alphabet, padded.
/// It panics only when the output length overflows `usize`.
#[verifier::external_body]
fn base64_encode(b: &[u8]) -> (r: String)
    requires
        b@.len() <= usize::MAX / 2,
    ensures
        r@ == base64_encoding(b@),
{
    base64::engine::general_purpose::STANDARD.encode(b)
}

/// Relies on base64's `STANDARD` engine `decode`, which requires canonical
/// padding and rejects non-zero trailing bits: it accepts exactly the texts
/// that `encode` produces, and gives back the bytes they encode.
#[verifier::external_body]
fn base64_decode(s: &str) -> (r: Option<Vec<u8>>)
    ensures
        match r {
            Some(v) => base64_encoding(v@) == s@,
            None => forall|x: Seq<u8>| base64_encoding(x) != s@,
        },
{
    base64::engine::general_purpose::STANDARD.decode(s).ok()
}

/// Base64 text of a byte string.
pub fn encode(b: &[u8]) -> (r: String)
    requires
        b@.len() <= usize::MAX / 2,
    ensures
        r@ == base64_encoding(b@),
{
    base64_encode(b)
}

/// The bytes whose encoding a text is, where there are any. Encodings of
/// distinct byte strings differ, so there is at most one such string.
pub open spec fn base64_decoding(s: Seq<char>) -> Option<Seq<u8>> {
    if exists|x: Seq<u8>| base64_encoding(x) == s {
        Some(choose|x: Seq<u8>| base64_encoding(x) == s)
    } else {
        None
    }
}

/// The bytes that a base64 text stands for, or `None` where the text is not
/// the encoding of any byte string.
pub fn decode(s: &str) -> (r: Option<Vec<u8>>)
    ensures
        match r {
            Some(v) => base64_decoding(s@) == Some(v@),
            None => base64_decoding(s@) is None,
        },
{
    let r = base64_decode(s);
    proof {
        if r is Some {
            let x = choose|x: Seq<u8>| base64_encoding(x) == s@;
            lemma_encoding_injective(x, r->Some_0@);
        }
    }
    r
}

/// Decoding the encoding of a byte string gives that byte string back.
pub proof fn lemma_base64_round_trip(x: Seq<u8>)
    ensures
        base64_decoding(base64_encoding(x)) == Some(x),
{
    let s = base64_encoding(x);
    assert(exists|y: Seq<u8>| base64_encoding(y) == s);
    let y = choose|y: Seq<u8>| base64_encoding(y) == s;
    lemma_encoding_injective(x, y);
}

proof fn lemma_group_bytes(a0: int, a1: int, a2: int, b0: int, b1: int, b2: int)
    requires
        0 <= a0 < 256,
        0 <= a1 < 256,
        0 <= a2 < 256,
        0 <= b0 < 256,
        0 <= b1 < 256,
        0 <= b2 < 256,
        a0 / 4 == b0 / 4,
        (a0 % 4) * 16 + a1 / 16 == (b0 % 4) * 16 + b1 / 16,
        (a1 % 16) * 4 + a2 / 64 == (b1 % 16) * 4 + b2 / 64,
        a2 % 64 == b2 % 64,
    ensures
        a0 == b0,
        a1 == b1,
        a2 == b2,
{
}

/// Distinct byte strings have distinct base64 encodings.
pub proof fn lemma_encoding_injective(x: Seq<u8>, y: Seq<u8>)
    requires
        base64_encoding(x) == base64_encoding(y),
    ensures
        x == y,
    decreases x.len(),
{
    let ex = base64_encoding(x);
    let ey = base64_encoding(y);
    if x.len() >= 3 {
        assert(ex.len() >= 4);
    }
    if y.len() >= 3 {
        assert(ey.len() >= 4);
    }
    if x.len() == 0 || y.len() == 0 {
        assert(x.len() == 0 && y.len() == 0);
        assert(x =~= y);
    } else {
        assert(ex[0] == sextet_char((x[0] as int) / 4));
        assert(ey[0] == sextet_char((y[0] as int) / 4));
        assert(ex[1] == ey[1]);
        lemma_sextet_char_injective((x[0] as int) / 4, (y[0] as int) / 4);
        if x.len() < 3 || y.len() < 3 {
            if x.len() == 1 {
                if y.len() >= 2 {
                    lemma_sextet_not_pad((y[1] as int) % 16 * 4 + if y.len() == 2 { 0 } else { (y[2] as int) / 64 });
                }
                lemma_sextet_char_injective(((x[0] as int) % 4) * 16, ((y[0] as int) % 4) * 16);
                assert((x[0] as int) == (y[0] as int));
                assert(x =~= y);
            } else if x.len() == 2 {
                if y.len() == 1 {
                    lemma_sextet_not_pad(((x[1] as int) % 16) * 4);
                } else if y.len() >= 3 {
                    lemma_sextet_not_pad((y[2] as int) % 64);
                }
                lemma_sextet_char_injective(((x[0] as int) % 4) * 16 + (x[1] as int) / 16, ((y[0] as int) % 4) * 16 + (y[1] as int) / 16);
                lemma_sextet_char_injective(((x[1] as int) % 16) * 4, ((y[1] as int) % 16) * 4);
                lemma_group_bytes(x[0] as int, x[1] as int, 0, y[0] as int, y[1] as int, 0);
                assert(x =~= y);
            } else {
                if y.len() == 1 {
                    lemma_sextet_not_pad(((x[1] as int) % 16) * 4 + (x[2] as int) / 64);
                } else {
                    lemma_sextet_not_pad((x[2] as int) % 64);
                }
            }
        } else {
            assert(ex[1] == sextet_char(((x[0] as int) % 4) * 16 + (x[1] as int) / 16));
            assert(ey[1] == sextet_char(((y[0] as int) % 4) * 16 + (y[1] as int) / 16));
            assert(ex[2] == ey[2]);
            assert(ex[3] == ey[3]);
            lemma_sextet_char_injective(((x[0] as int) % 4) * 16 + (x[1] as int) / 16, ((y[0] as int) % 4) * 16 + (y[1] as int) / 16);
            lemma_sextet_char_injective(((x[1] as int) % 16) * 4 + (x[2] as int) / 64, ((y[1] as int) % 16) * 4 + (y[2] as int) / 64);
            lemma_sextet_char_injective((x[2] as int) % 64, (y[2] as int) % 64);
            lemma_group_bytes(x[0] as int, x[1] as int, x[2] as int, y[0] as int, y[1] as int, y[2] as int);
            assert(base64_encoding(x.skip(3)) =~= ex.skip(4));
            assert(base64_encoding(y.skip(3)) =~= ey.skip(4));
            lemma_encoding_injective(x.skip(3), y.skip(3));
            assert(x =~= x.take(3) + x.skip(3));
            assert(y =~= y.take(3) + y.skip(3));
            assert(x.take(3) =~= y.take(3));
        }
    }
}

proof fn lemma_sextet_char_injective(a: int, b: int)
    requires
        0 <= a < 64,
        0 <= b < 64,
        sextet_char(a) == sextet_char(b),
    ensures
        a == b,
{
}

proof fn lemma_sextet_not_pad(a: int)
    requires
        0 <= a < 64,
    ensures
        sextet_char(a) != pad_char(),
{
}

}
