//! Text encodings the cookie vault relies on: standard padded Base64 (the
//! `base64` crate) and UTF-8 decoding (`std`).
use vstd::prelude::*;
use vstd::utf8::{decode_utf8, is_ascii_chars, valid_utf8};
use base64::Engine;

verus! {

/// The character of the standard Base64 alphabet for the six-bit value `v`.
pub open spec fn base64_digit(v: int) -> char {
    if v < 26 {
        (65 + v) as char
    } else if v < 52 {
        (97 + v - 26) as char
    } else if v < 62 {
        (48 + v - 52) as char
    } else if v == 62 {
        '+'
    } else {
        '/'
    }
}

/// The four characters for the bytes `a`, `b`, `c`, of which the first
/// `n` (one to three) are real; the missing ones are padded with `=`.
pub open spec fn base64_group(a: int, b: int, c: int, n: int) -> Seq<char> {
    seq![
        base64_digit(a / 4),
        base64_digit((a % 4) * 16 + b / 16),
        if n >= 2 { base64_digit((b % 16) * 4 + c / 64) } else { '=' },
        if n >= 3 { base64_digit(c % 64) } else { '=' },
    ]
}

/// The standard, padded Base64 text of `bytes` (RFC 4648): every three
/// bytes become four characters, and a last group of one or two bytes is
/// padded with `=`.
pub open spec fn base64_encoding(bytes: Seq<u8>) -> Seq<char>
    decreases bytes.len(),
{
    if bytes.len() == 0 {
        Seq::empty()
    } else if bytes.len() == 1 {
        base64_group(bytes[0] as int, 0, 0, 1)
    } else if bytes.len() == 2 {
        base64_group(bytes[0] as int, bytes[1] as int, 0, 2)
    } else {
        base64_group(bytes[0] as int, bytes[1] as int, bytes[2] as int, 3) + base64_encoding(bytes.skip(3))
    }
}

/// The bytes that the Base64 text `text` stands for: the bytes whose
/// encoding it is, when there are any (they are unique), else `None`.
pub open spec fn base64_decoding(text: Seq<char>) -> Option<Seq<u8>> {
    if exists|b: Seq<u8>| base64_encoding(b) == text {
        Some(choose|b: Seq<u8>| base64_encoding(b) == text)
    } else {
        None
    }
}

proof fn lemma_digit_injective(v: int, w: int)
    requires
        0 <= v < 64,
        0 <= w < 64,
        base64_digit(v) == base64_digit(w),
    ensures
        v == w,
{
    assert(base64_digit(v) as int == base64_digit(w) as int);
}

/// Length of the padded Base64 text of `n` bytes.
pub open spec fn base64_len(n: nat) -> nat {
    4 * ((n + 2) / 3)
}

proof fn lemma_digit_is_not_padding(v: int)
    requires
        0 <= v < 64,
    ensures
        base64_digit(v) != '=',
        '\0' <= base64_digit(v) <= '\u{7f}',
{
    assert(base64_digit(v) as int != '=' as int);
}

proof fn lemma_group_injective(a: int, b: int, c: int, n: int, x: int, y: int, z: int, m: int)
    requires
        0 <= a < 256, 0 <= b < 256, 0 <= c < 256,
        0 <= x < 256, 0 <= y < 256, 0 <= z < 256,
        1 <= n <= 3, 1 <= m <= 3,
        n < 2 ==> b == 0, n < 3 ==> c == 0,
        m < 2 ==> y == 0, m < 3 ==> z == 0,
        base64_group(a, b, c, n) == base64_group(x, y, z, m),
    ensures
        n == m, a == x, b == y, c == z,
{
    let g = base64_group(a, b, c, n);
    let h = base64_group(x, y, z, m);
    assert(g[0] == h[0] && g[1] == h[1] && g[2] == h[2] && g[3] == h[3]);
    lemma_digit_injective(a / 4, x / 4);
    lemma_digit_injective((a % 4) * 16 + b / 16, (x % 4) * 16 + y / 16);
    lemma_digit_is_not_padding((b % 16) * 4 + c / 64);
    lemma_digit_is_not_padding((y % 16) * 4 + z / 64);
    lemma_digit_is_not_padding(c % 64);
    lemma_digit_is_not_padding(z % 64);
    if n >= 2 {
        lemma_digit_injective((b % 16) * 4 + c / 64, (y % 16) * 4 + z / 64);
    }
    if n >= 3 {
        lemma_digit_injective(c % 64, z % 64);
    }
}

proof fn lemma_group_ascii(a: int, b: int, c: int, n: int)
    requires
        0 <= a < 256, 0 <= b < 256, 0 <= c < 256,
    ensures
        forall|i: int| 0 <= i < 4 ==> '\0' <= #[trigger] base64_group(a, b, c, n)[i] <= '\u{7f}',
{
    lemma_digit_is_not_padding(a / 4);
    lemma_digit_is_not_padding((a % 4) * 16 + b / 16);
    lemma_digit_is_not_padding((b % 16) * 4 + c / 64);
    lemma_digit_is_not_padding(c % 64);
}

/// What the padded Base64 text of `bytes` is made of: four ASCII
/// characters for every started group of three bytes, and decoding it
/// gives `bytes` back.
pub proof fn lemma_base64_encoding(bytes: Seq<u8>)
    ensures
        base64_encoding(bytes).len() == base64_len(bytes.len()),
        is_ascii_chars(base64_encoding(bytes)),
        base64_decoding(base64_encoding(bytes)) == Some(bytes),
{
    lemma_encoding_shape(bytes);
    let t = base64_encoding(bytes);
    assert(exists|b: Seq<u8>| base64_encoding(b) == t);
    let b = choose|b: Seq<u8>| base64_encoding(b) == t;
    lemma_encoding_injective(b, bytes);
}

proof fn lemma_encoding_shape(bytes: Seq<u8>)
    ensures
        base64_encoding(bytes).len() == base64_len(bytes.len()),
        is_ascii_chars(base64_encoding(bytes)),
    decreases bytes.len(),
{
    let e = base64_encoding(bytes);
    if bytes.len() == 0 {
    } else if bytes.len() == 1 {
        lemma_group_ascii(bytes[0] as int, 0, 0, 1);
    } else if bytes.len() == 2 {
        lemma_group_ascii(bytes[0] as int, bytes[1] as int, 0, 2);
    } else {
        let g = base64_group(bytes[0] as int, bytes[1] as int, bytes[2] as int, 3);
        lemma_group_ascii(bytes[0] as int, bytes[1] as int, bytes[2] as int, 3);
        lemma_encoding_shape(bytes.skip(3));
        let r = base64_encoding(bytes.skip(3));
        assert(e == g + r);
        assert forall|i: int| 0 <= i < e.len() implies '\0' <= #[trigger] e[i] <= '\u{7f}' by {
            if i < 4 {
                assert(e[i] == g[i]);
            } else {
                assert(e[i] == r[i - 4]);
            }
        }
    }
}

proof fn lemma_encoding_injective(b1: Seq<u8>, b2: Seq<u8>)
    requires
        base64_encoding(b1) == base64_encoding(b2),
    ensures
        b1 == b2,
    decreases b1.len(),
{
    lemma_encoding_shape(b1);
    lemma_encoding_shape(b2);
    let e = base64_encoding(b1);
    if b1.len() == 0 || b2.len() == 0 {
        assert(b1.len() == 0 && b2.len() == 0);
        assert(b1 =~= b2);
        return;
    }
    let n1: int = if b1.len() >= 3 { 3 } else { b1.len() as int };
    let n2: int = if b2.len() >= 3 { 3 } else { b2.len() as int };
    let g1 = base64_group(b1[0] as int, if n1 >= 2 { b1[1] as int } else { 0 }, if n1 >= 3 { b1[2] as int } else { 0 }, n1);
    let g2 = base64_group(b2[0] as int, if n2 >= 2 { b2[1] as int } else { 0 }, if n2 >= 3 { b2[2] as int } else { 0 }, n2);
    assert(e.take(4) =~= g1);
    assert(base64_encoding(b2).take(4) =~= g2);
    lemma_group_injective(
        b1[0] as int, if n1 >= 2 { b1[1] as int } else { 0 }, if n1 >= 3 { b1[2] as int } else { 0 }, n1,
        b2[0] as int, if n2 >= 2 { b2[1] as int } else { 0 }, if n2 >= 3 { b2[2] as int } else { 0 }, n2,
    );
    if n1 < 3 {
        assert(b1 =~= b2);
    } else {
        assert(e.skip(4) =~= base64_encoding(b1.skip(3)));
        assert(base64_encoding(b2).skip(4) =~= base64_encoding(b2.skip(3)));
        lemma_encoding_injective(b1.skip(3), b2.skip(3));
        assert(b1 =~= b1.take(3) + b1.skip(3));
        assert(b2 =~= b2.take(3) + b2.skip(3));
        assert(b1.take(3) =~= b2.take(3));
    }
}

/// Calls `base64::engine::general_purpose::STANDARD.encode`. Trusted: the
/// text is the standard padded Base64 encoding of `bytes`, as
/// `base64_encoding` spells it out. The crate panics when the encoded
/// length (`encoded_len` with padding) does not fit in `usize`, so that
/// input is excluded.
#[verifier::external_body]
pub(crate) fn base64_encode(bytes: &[u8]) -> (r: String)
    requires
        base64_len(bytes@.len()) <= usize::MAX,
    ensures
        r@ == base64_encoding(bytes@),
{
    base64::engine::general_purpose::STANDARD.encode(bytes)
}

/// Calls `base64::engine::general_purpose::STANDARD.decode` on the bytes of
/// `text`. Trusted: with padding required and trailing bits refused (the
/// `STANDARD` configuration), it succeeds exactly when the text is the
/// encoding of some bytes, and gives those bytes. The error's message is
/// the crate's and is not described.
#[verifier::external_body]
pub(crate) fn base64_decode(text: &str) -> (r: Result<Vec<u8>, String>)
    ensures
        match base64_decoding(text@) {
            Some(b) => r matches Ok(v) && v@ == b,
            None => r is Err,
        },
{
    base64::engine::general_purpose::STANDARD.decode(text).map_err(|e| e.to_string())
}

/// Calls `String::from_utf8`. Trusted: it succeeds exactly when `bytes` are
/// valid UTF-8, with the characters they encode.
#[verifier::external_body]
pub(crate) fn utf8_to_string(bytes: Vec<u8>) -> (r: Option<String>)
    ensures
        r is Some <==> valid_utf8(bytes@),
        r matches Some(s) ==> s@ == decode_utf8(bytes@),
{
    String::from_utf8(bytes).ok()
}

} // verus!
