//! Base64 (standard alphabet, padded) for terminal input carried in JSON.

use vstd::prelude::*;
use vstd::string::*;
use vstd::utf8::*;

use base64::Engine;

verus! {

/// The character of a 6-bit value in the standard base64 alphabet
/// (`A`-`Z`, `a`-`z`, `0`-`9`, `+`, `/`).
pub open spec fn base64_digit(v: int) -> char {
    if v < 26 {
        (('A' as int) + v) as char
    } else if v < 52 {
        (('a' as int) + v - 26) as char
    } else if v < 62 {
        (('0' as int) + v - 52) as char
    } else if v == 62 {
        '+'
    } else {
        '/'
    }
}

/// The standard base64 encoding of `bytes` (RFC 4648, padded with `=`):
/// each group of three bytes becomes four characters, a last group of one
/// or two bytes is padded to four.
pub open spec fn base64_encoded(bytes: Seq<u8>) -> Seq<char>
    decreases bytes.len(),
{
    if bytes.len() == 0 {
        seq![]
    } else if bytes.len() == 1 {
        let x = bytes[0] as int;
        seq![base64_digit(x / 4), base64_digit((x % 4) * 16), '=', '=']
    } else if bytes.len() == 2 {
        let x = bytes[0] as int;
        let y = bytes[1] as int;
        seq![base64_digit(x / 4), base64_digit((x % 4) * 16 + y / 16), base64_digit((y % 16) * 4), '=']
    } else {
        let x = bytes[0] as int;
        let y = bytes[1] as int;
        let z = bytes[2] as int;
        seq![
            base64_digit(x / 4),
            base64_digit((x % 4) * 16 + y / 16),
            base64_digit((y % 16) * 4 + z / 64),
            base64_digit(z % 64),
        ] + base64_encoded(bytes.skip(3))
    }
}

/// `text` is the standard base64 encoding of `bytes`, as UTF-8 bytes.
pub open spec fn base64_decodes_to(text: Seq<u8>, bytes: Seq<u8>) -> bool {
    text == encode_utf8(base64_encoded(bytes))
}

/// What `text` decodes to under standard padded base64 with canonical
/// padding and no stray trailing bits: the bytes it is the encoding of, or
/// `None` when it is the encoding of none.
pub open spec fn base64_decoded(text: Seq<u8>) -> Option<Seq<u8>> {
    if exists|bytes: Seq<u8>| base64_decodes_to(text, bytes) {
        Some(choose|bytes: Seq<u8>| base64_decodes_to(text, bytes))
    } else {
        None
    }
}

proof fn lemma_digit_injective(a: int, b: int)
    requires
        0 <= a < 64,
        0 <= b < 64,
        base64_digit(a) == base64_digit(b),
    ensures
        a == b,
{
    assert(base64_digit(a) as int == base64_digit(b) as int);
}

proof fn lemma_digit_not_pad(a: int)
    requires
        0 <= a < 64,
    ensures
        base64_digit(a) != '=',
{
    assert(base64_digit(a) as int != '=' as int);
}

proof fn lemma_group_injective(x1: u8, y1: u8, z1: u8, x2: u8, y2: u8, z2: u8)
    requires
        x1 / 4 == x2 / 4,
        (x1 % 4) * 16 + y1 / 16 == (x2 % 4) * 16 + y2 / 16,
        (y1 % 16) * 4 + z1 / 64 == (y2 % 16) * 4 + z2 / 64,
        z1 % 64 == z2 % 64,
    ensures
        x1 == x2 && y1 == y2 && z1 == z2,
{
    assert(x1 == x2 && y1 == y2 && z1 == z2) by (bit_vector)
        requires
            x1 / 4 == x2 / 4,
            (x1 % 4) * 16 + y1 / 16 == (x2 % 4) * 16 + y2 / 16,
            (y1 % 16) * 4 + z1 / 64 == (y2 % 16) * 4 + z2 / 64,
            z1 % 64 == z2 % 64,
    ;
}

proof fn lemma_pair_injective(x1: u8, y1: u8, x2: u8, y2: u8)
    requires
        x1 / 4 == x2 / 4,
        (x1 % 4) * 16 + y1 / 16 == (x2 % 4) * 16 + y2 / 16,
        (y1 % 16) * 4 == (y2 % 16) * 4,
    ensures
        x1 == x2 && y1 == y2,
{
    assert(x1 == x2 && y1 == y2) by (bit_vector)
        requires
            x1 / 4 == x2 / 4,
            (x1 % 4) * 16 + y1 / 16 == (x2 % 4) * 16 + y2 / 16,
            (y1 % 16) * 4 == (y2 % 16) * 4,
    ;
}

proof fn lemma_single_injective(x1: u8, x2: u8)
    requires
        x1 / 4 == x2 / 4,
        (x1 % 4) * 16 == (x2 % 4) * 16,
    ensures
        x1 == x2,
{
    assert(x1 == x2) by (bit_vector)
        requires
            x1 / 4 == x2 / 4,
            (x1 % 4) * 16 == (x2 % 4) * 16,
    ;
}

/// Facts about the first group of an encoding: its length class shows in
/// the padding.
proof fn lemma_encoded_shape(b: Seq<u8>)
    ensures
        b.len() == 0 <==> base64_encoded(b).len() == 0,
        b.len() > 0 ==> base64_encoded(b).len() >= 4,
        b.len() > 0 ==> (base64_encoded(b)[2] == '=' <==> b.len() == 1),
        b.len() > 0 ==> (base64_encoded(b)[3] == '=' <==> b.len() <= 2),
{
    if b.len() == 1 {
        lemma_digit_not_pad(b[0] as int / 4);
    } else if b.len() == 2 {
        lemma_digit_not_pad(b[0] as int / 4);
        let x = b[0] as int;
        let y = b[1] as int;
        lemma_digit_not_pad((y % 16) * 4);
    } else if b.len() >= 3 {
        let x = b[0] as int;
        let y = b[1] as int;
        let z = b[2] as int;
        lemma_digit_not_pad((y % 16) * 4 + z / 64);
        lemma_digit_not_pad(z % 64);
    }
}

/// Different bytes have different encodings.
pub proof fn lemma_base64_injective(a: Seq<u8>, b: Seq<u8>)
    requires
        base64_encoded(a) == base64_encoded(b),
    ensures
        a == b,
    decreases a.len(),
{
    lemma_encoded_shape(a);
    lemma_encoded_shape(b);
    let e = base64_encoded(a);
    if a.len() == 0 {
        assert(a =~= b);
    } else if a.len() == 1 {
        let (x1, x2) = (a[0], b[0]);
        assert(e[0] == base64_digit(x1 as int / 4) && e[0] == base64_digit(x2 as int / 4));
        assert(e[1] == base64_digit((x1 as int % 4) * 16) && e[1] == base64_digit((x2 as int % 4) * 16));
        lemma_digit_injective(x1 as int / 4, x2 as int / 4);
        lemma_digit_injective((x1 as int % 4) * 16, (x2 as int % 4) * 16);
        lemma_single_injective(x1, x2);
        assert(a =~= b);
    } else if a.len() == 2 {
        let (x1, x2) = (a[0], b[0]);
        let (y1, y2) = (a[1], b[1]);
        let (d1a, d1b) = ((x1 as int % 4) * 16 + y1 as int / 16, (x2 as int % 4) * 16 + y2 as int / 16);
        let (d2a, d2b) = ((y1 as int % 16) * 4, (y2 as int % 16) * 4);
        assert(e[0] == base64_digit(x1 as int / 4) && e[0] == base64_digit(x2 as int / 4));
        assert(e[1] == base64_digit(d1a) && e[1] == base64_digit(d1b));
        assert(e[2] == base64_digit(d2a) && e[2] == base64_digit(d2b));
        lemma_digit_injective(x1 as int / 4, x2 as int / 4);
        lemma_digit_injective(d1a, d1b);
        lemma_digit_injective(d2a, d2b);
        lemma_pair_injective(x1, y1, x2, y2);
        assert(a =~= b);
    } else {
        let (x1, x2) = (a[0], b[0]);
        let (y1, y2) = (a[1], b[1]);
        let (z1, z2) = (a[2], b[2]);
        let (d1a, d1b) = ((x1 as int % 4) * 16 + y1 as int / 16, (x2 as int % 4) * 16 + y2 as int / 16);
        let (d2a, d2b) = ((y1 as int % 16) * 4 + z1 as int / 64, (y2 as int % 16) * 4 + z2 as int / 64);
        assert(e[0] == base64_digit(x1 as int / 4) && e[0] == base64_digit(x2 as int / 4));
        assert(e[1] == base64_digit(d1a) && e[1] == base64_digit(d1b));
        assert(e[2] == base64_digit(d2a) && e[2] == base64_digit(d2b));
        assert(e[3] == base64_digit(z1 as int % 64) && e[3] == base64_digit(z2 as int % 64));
        lemma_digit_injective(x1 as int / 4, x2 as int / 4);
        lemma_digit_injective(d1a, d1b);
        lemma_digit_injective(d2a, d2b);
        lemma_digit_injective(z1 as int % 64, z2 as int % 64);
        lemma_group_injective(x1, y1, z1, x2, y2, z2);
        assert(base64_encoded(a.skip(3)) =~= e.skip(4));
        assert(base64_encoded(b.skip(3)) =~= e.skip(4));
        lemma_base64_injective(a.skip(3), b.skip(3));
        assert(a =~= a.take(3) + a.skip(3));
        assert(b =~= b.take(3) + b.skip(3));
        assert(a.take(3) =~= b.take(3));
    }
}

/// Decoding an encoding gives the bytes back.
pub proof fn lemma_base64_round_trip(bytes: Seq<u8>)
    ensures
        base64_decoded(encode_utf8(base64_encoded(bytes))) == Some(bytes),
{
    let text = encode_utf8(base64_encoded(bytes));
    assert(base64_decodes_to(text, bytes));
    let other = choose|b: Seq<u8>| base64_decodes_to(text, b);
    assert(base64_decodes_to(text, other));
    encode_utf8_decode_utf8(base64_encoded(other));
    encode_utf8_decode_utf8(base64_encoded(bytes));
    lemma_base64_injective(other, bytes);
}

/// Calls `base64::engine::general_purpose::STANDARD.encode(bytes)`.
///
/// Claimed: the result is the standard padded encoding of the bytes
/// ([`base64_encoded`], as the engine's `STANDARD` configuration writes it).
/// The crate panics when the encoded length overflows `usize`; `requires`
/// rules that out.
#[verifier::external_body]
pub(crate) fn base64_encode(bytes: &[u8]) -> (s: String)
    requires
        bytes@.len() <= usize::MAX / 2,
    ensures
        s@ == base64_encoded(bytes@),
{
    base64::engine::general_purpose::STANDARD.encode(bytes)
}

/// Calls `base64::engine::general_purpose::STANDARD.decode(text)`.
///
/// Claimed: the engine's `STANDARD` configuration requires canonical padding
/// and rejects stray trailing bits, so it accepts exactly the standard
/// encodings of byte strings and gives back the bytes encoded
/// ([`base64_decoded`]); `None` exactly when the engine reports an error.
#[verifier::external_body]
pub(crate) fn base64_decode(text: &str) -> (r: Option<Vec<u8>>)
    ensures
        match r {
            Some(v) => base64_decodes_to(text.spec_bytes(), v@),
            None => base64_decoded(text.spec_bytes()) is None,
        },
{
    match base64::engine::general_purpose::STANDARD.decode(text) {
        Ok(v) => Some(v),
        Err(_) => None,
    }
}

/// What the engine's decoding of `text` gives, as [`base64_decoded`] states
/// it: the bytes when `text` is an encoding, `None` otherwise.
pub proof fn lemma_decoded_is_the_encoded(text: Seq<u8>, bytes: Seq<u8>)
    requires
        base64_decodes_to(text, bytes),
    ensures
        base64_decoded(text) == Some(bytes),
{
    lemma_base64_round_trip(bytes);
}

} // verus!
