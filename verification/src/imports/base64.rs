//! Base64 encoding and decoding.
//!
//! Encoding writes standard (RFC 4648 §4) base64 with padding. Decoding is tolerant:
//! it accepts the four common dialects (standard padded and unpadded, URL-safe padded
//! and unpadded), trying them in that order.
use ::base64::engine::general_purpose::{STANDARD, STANDARD_NO_PAD, URL_SAFE, URL_SAFE_NO_PAD};
use ::base64::Engine;
use vstd::prelude::*;

verus! {

/// The four base64 dialects that decoding accepts.
#[derive(PartialEq, Eq, Clone, Copy, Debug)]
pub enum Dialect {
    /// Alphabet `A-Z a-z 0-9 + /`, padded with `=` to a multiple of four symbols.
    Standard,
    /// Alphabet `A-Z a-z 0-9 + /`, without padding.
    StandardNoPad,
    /// Alphabet `A-Z a-z 0-9 - _`, padded with `=` to a multiple of four symbols.
    UrlSafe,
    /// Alphabet `A-Z a-z 0-9 - _`, without padding.
    UrlSafeNoPad,
}

/// Whether the dialect uses `-` and `_` for the values 62 and 63.
pub open spec fn url_safe(d: Dialect) -> bool {
    d == Dialect::UrlSafe || d == Dialect::UrlSafeNoPad
}

/// Whether the dialect pads its output with `=`.
pub open spec fn padded(d: Dialect) -> bool {
    d == Dialect::Standard || d == Dialect::UrlSafe
}

/// The padding byte `=`.
pub open spec fn pad_byte() -> u8 {
    61
}

/// The ASCII byte that stands for the 6-bit value `x` (0 to 63).
pub open spec fn symbol(url: bool, x: int) -> u8 {
    if x < 26 {
        (65 + x) as u8
    } else if x < 52 {
        (97 + x - 26) as u8
    } else if x < 62 {
        (48 + x - 52) as u8
    } else if x == 62 {
        if url {
            45u8
        } else {
            43u8
        }
    } else {
        if url {
            95u8
        } else {
            47u8
        }
    }
}

/// The encoding of one group of one to three bytes: its 6-bit values as symbols,
/// followed in a padded dialect by one `=` per missing byte.
pub open spec fn encode_group(d: Dialect, g: Seq<u8>) -> Seq<u8> {
    let v1 = g[0] as int;
    let v2 = if g.len() > 1 { g[1] as int } else { 0 };
    let v3 = if g.len() > 2 { g[2] as int } else { 0 };
    let s1 = symbol(url_safe(d), v1 / 4);
    let s2 = symbol(url_safe(d), (v1 % 4) * 16 + v2 / 16);
    let s3 = symbol(url_safe(d), (v2 % 16) * 4 + v3 / 64);
    let s4 = symbol(url_safe(d), v3 % 64);
    if g.len() >= 3 {
        seq![s1, s2, s3, s4]
    } else if g.len() == 2 {
        if padded(d) {
            seq![s1, s2, s3, pad_byte()]
        } else {
            seq![s1, s2, s3]
        }
    } else {
        if padded(d) {
            seq![s1, s2, pad_byte(), pad_byte()]
        } else {
            seq![s1, s2]
        }
    }
}

/// The base64 encoding of `v` in dialect `d`, as ASCII bytes.
pub open spec fn base64_encode(d: Dialect, v: Seq<u8>) -> Seq<u8>
    decreases v.len(),
{
    if v.len() == 0 {
        seq![]
    } else if v.len() <= 3 {
        encode_group(d, v)
    } else {
        encode_group(d, v.take(3)) + base64_encode(d, v.skip(3))
    }
}

/// `s` is the encoding of some byte sequence in dialect `d`.
pub open spec fn encodes(d: Dialect, s: Seq<u8>) -> bool {
    exists|v: Seq<u8>| #[trigger] base64_encode(d, v) == s
}

/// `s` is the encoding of some byte sequence in one of the four dialects.
pub open spec fn any_dialect_encodes(s: Seq<u8>) -> bool {
    ||| encodes(Dialect::Standard, s)
    ||| encodes(Dialect::StandardNoPad, s)
    ||| encodes(Dialect::UrlSafe, s)
    ||| encodes(Dialect::UrlSafeNoPad, s)
}

/// `v` is what tolerant decoding makes of `s`: `s` encodes `v` in the first of the
/// dialects standard, standard unpadded, URL-safe, URL-safe unpadded that accepts `s`.
pub open spec fn tolerant_decoding(s: Seq<u8>, v: Seq<u8>) -> bool {
    ||| base64_encode(Dialect::Standard, v) == s
    ||| !encodes(Dialect::Standard, s) && base64_encode(Dialect::StandardNoPad, v) == s
    ||| !encodes(Dialect::Standard, s) && !encodes(Dialect::StandardNoPad, s)
        && base64_encode(Dialect::UrlSafe, v) == s
    ||| !encodes(Dialect::Standard, s) && !encodes(Dialect::StandardNoPad, s) && !encodes(
        Dialect::UrlSafe,
        s,
    ) && base64_encode(Dialect::UrlSafeNoPad, v) == s
}

/// The bytes that tolerant decoding gives for `s`, or `None` when no dialect accepts it.
pub open spec fn tolerant_decode(s: Seq<u8>) -> Option<Seq<u8>> {
    if any_dialect_encodes(s) {
        Some(choose|v: Seq<u8>| tolerant_decoding(s, v))
    } else {
        None
    }
}

/// ASCII bytes read as characters.
pub open spec fn ascii_chars(s: Seq<u8>) -> Seq<char> {
    s.map_values(|b: u8| b as char)
}

/// The 6-bit value that an ASCII byte stands for in either alphabet, or -1.
pub open spec fn sextet(c: u8) -> int {
    if 65 <= c <= 90 {
        c - 65
    } else if 97 <= c <= 122 {
        c - 97 + 26
    } else if 48 <= c <= 57 {
        c - 48 + 52
    } else if c == 43 || c == 45 {
        62
    } else if c == 47 || c == 95 {
        63
    } else {
        -1
    }
}

proof fn lemma_symbol_sextet(url: bool, x: int)
    requires
        0 <= x < 64,
    ensures
        sextet(symbol(url, x)) == x,
        symbol(url, x) != pad_byte(),
{
}

/// Two 6-bit values with equal symbols, in any two alphabets, are equal.
proof fn lemma_symbol_injective(u1: bool, x: int, u2: bool, y: int)
    requires
        0 <= x < 64,
        0 <= y < 64,
        symbol(u1, x) == symbol(u2, y),
    ensures
        x == y,
{
    lemma_symbol_sextet(u1, x);
    lemma_symbol_sextet(u2, y);
}

proof fn lemma_group_shape(d: Dialect, g: Seq<u8>)
    requires
        1 <= g.len() <= 3,
    ensures
        encode_group(d, g).len() == if padded(d) {
            4
        } else {
            g.len() + 1
        },
        forall|i: int|
            0 <= i <= g.len() ==> #[trigger] encode_group(d, g)[i] != pad_byte(),
        forall|i: int|
            g.len() < i < encode_group(d, g).len() ==> #[trigger] encode_group(d, g)[i]
                == pad_byte(),
{
    let v1 = g[0] as int;
    let v2 = if g.len() > 1 { g[1] as int } else { 0 };
    let v3 = if g.len() > 2 { g[2] as int } else { 0 };
    lemma_symbol_sextet(url_safe(d), v1 / 4);
    lemma_symbol_sextet(url_safe(d), (v1 % 4) * 16 + v2 / 16);
    lemma_symbol_sextet(url_safe(d), (v2 % 16) * 4 + v3 / 64);
    lemma_symbol_sextet(url_safe(d), v3 % 64);
}

/// Equal group encodings, in any two dialects, come from equal groups.
proof fn lemma_group_injective(d1: Dialect, g1: Seq<u8>, d2: Dialect, g2: Seq<u8>)
    requires
        1 <= g1.len() <= 3,
        1 <= g2.len() <= 3,
        encode_group(d1, g1) == encode_group(d2, g2),
    ensures
        g1 == g2,
{
    let e = encode_group(d1, g1);
    lemma_group_shape(d1, g1);
    lemma_group_shape(d2, g2);
    // The number of symbols before the padding or the end is one more than the length.
    if g1.len() < g2.len() {
        assert(e[g1.len() as int] != pad_byte());
    } else if g2.len() < g1.len() {
        assert(e[g2.len() as int] != pad_byte());
    }
    assert(g1.len() == g2.len());
    let a1 = g1[0] as int;
    let a2 = if g1.len() > 1 { g1[1] as int } else { 0 };
    let a3 = if g1.len() > 2 { g1[2] as int } else { 0 };
    let b1 = g2[0] as int;
    let b2 = if g2.len() > 1 { g2[1] as int } else { 0 };
    let b3 = if g2.len() > 2 { g2[2] as int } else { 0 };
    lemma_symbol_injective(url_safe(d1), a1 / 4, url_safe(d2), b1 / 4);
    lemma_symbol_injective(
        url_safe(d1),
        (a1 % 4) * 16 + a2 / 16,
        url_safe(d2),
        (b1 % 4) * 16 + b2 / 16,
    );
    assert(a1 == b1);
    if g1.len() > 1 {
        lemma_symbol_injective(
            url_safe(d1),
            (a2 % 16) * 4 + a3 / 64,
            url_safe(d2),
            (b2 % 16) * 4 + b3 / 64,
        );
        assert(a2 == b2);
    }
    if g1.len() > 2 {
        lemma_symbol_injective(url_safe(d1), a3 % 64, url_safe(d2), b3 % 64);
        assert(a3 == b3);
    }
    assert(g1 =~= g2);
}

proof fn lemma_encode_len(d: Dialect, v: Seq<u8>)
    ensures
        v.len() == 0 ==> base64_encode(d, v).len() == 0,
        1 <= v.len() <= 3 ==> 2 <= base64_encode(d, v).len() <= 4,
        v.len() > 3 ==> base64_encode(d, v).len() >= 6,
    decreases v.len(),
{
    if 1 <= v.len() <= 3 {
        lemma_group_shape(d, v);
    } else if v.len() > 3 {
        lemma_group_shape(d, v.take(3));
        lemma_encode_len(d, v.skip(3));
    }
}

/// Base64 encoding loses nothing, even across dialects: equal encodings, in any two of
/// the four dialects, come from equal bytes.
pub proof fn lemma_encode_injective(d1: Dialect, v1: Seq<u8>, d2: Dialect, v2: Seq<u8>)
    requires
        base64_encode(d1, v1) == base64_encode(d2, v2),
    ensures
        v1 == v2,
    decreases v1.len(),
{
    let e = base64_encode(d1, v1);
    lemma_encode_len(d1, v1);
    lemma_encode_len(d2, v2);
    if v1.len() == 0 {
        assert(v1 =~= v2);
    } else if v1.len() <= 3 {
        lemma_group_injective(d1, v1, d2, v2);
    } else {
        let g1 = encode_group(d1, v1.take(3));
        let g2 = encode_group(d2, v2.take(3));
        let r1 = base64_encode(d1, v1.skip(3));
        let r2 = base64_encode(d2, v2.skip(3));
        lemma_group_shape(d1, v1.take(3));
        lemma_group_shape(d2, v2.take(3));
        assert(e == g1 + r1);
        assert(e == g2 + r2);
        assert(g1 =~= e.take(4));
        assert(g2 =~= e.take(4));
        assert(r1 =~= e.skip(4));
        assert(r2 =~= e.skip(4));
        lemma_group_injective(d1, v1.take(3), d2, v2.take(3));
        lemma_encode_injective(d1, v1.skip(3), d2, v2.skip(3));
        assert(v1 =~= v1.take(3) + v1.skip(3));
        assert(v2 =~= v2.take(3) + v2.skip(3));
    }
}

/// Whatever dialects it comes from, a decoding of `s` is unique.
proof fn lemma_tolerant_unique(s: Seq<u8>, v: Seq<u8>, w: Seq<u8>)
    requires
        tolerant_decoding(s, v),
        tolerant_decoding(s, w),
    ensures
        v == w,
{
    let dv = if base64_encode(Dialect::Standard, v) == s {
        Dialect::Standard
    } else if base64_encode(Dialect::StandardNoPad, v) == s {
        Dialect::StandardNoPad
    } else if base64_encode(Dialect::UrlSafe, v) == s {
        Dialect::UrlSafe
    } else {
        Dialect::UrlSafeNoPad
    };
    let dw = if base64_encode(Dialect::Standard, w) == s {
        Dialect::Standard
    } else if base64_encode(Dialect::StandardNoPad, w) == s {
        Dialect::StandardNoPad
    } else if base64_encode(Dialect::UrlSafe, w) == s {
        Dialect::UrlSafe
    } else {
        Dialect::UrlSafeNoPad
    };
    lemma_encode_injective(dv, v, dw, w);
}

/// A decoding that satisfies [`tolerant_decoding`] is the one [`tolerant_decode`] gives.
proof fn lemma_tolerant_decode_is(s: Seq<u8>, v: Seq<u8>)
    requires
        tolerant_decoding(s, v),
    ensures
        tolerant_decode(s) == Some(v),
{
    if base64_encode(Dialect::Standard, v) == s {
        assert(encodes(Dialect::Standard, s));
    } else if base64_encode(Dialect::StandardNoPad, v) == s {
        assert(encodes(Dialect::StandardNoPad, s));
    } else if base64_encode(Dialect::UrlSafe, v) == s {
        assert(encodes(Dialect::UrlSafe, s));
    } else {
        assert(encodes(Dialect::UrlSafeNoPad, s));
    }
    let w = choose|w: Seq<u8>| tolerant_decoding(s, w);
    lemma_tolerant_unique(s, v, w);
}

/// Tolerant decoding undoes encoding in every one of the four dialects: whichever
/// dialect produced `s` from `v`, decoding `s` gives back `v`.
pub proof fn lemma_decode_every_dialect(d: Dialect, v: Seq<u8>)
    ensures
        tolerant_decode(base64_encode(d, v)) == Some(v),
{
    let s = base64_encode(d, v);
    assert(encodes(d, s));
    if encodes(Dialect::Standard, s) {
        let w = choose|w: Seq<u8>| #[trigger] base64_encode(Dialect::Standard, w) == s;
        lemma_encode_injective(Dialect::Standard, w, d, v);
    } else if encodes(Dialect::StandardNoPad, s) {
        let w = choose|w: Seq<u8>| #[trigger] base64_encode(Dialect::StandardNoPad, w) == s;
        lemma_encode_injective(Dialect::StandardNoPad, w, d, v);
    } else if encodes(Dialect::UrlSafe, s) {
        let w = choose|w: Seq<u8>| #[trigger] base64_encode(Dialect::UrlSafe, w) == s;
        lemma_encode_injective(Dialect::UrlSafe, w, d, v);
    }
    assert(tolerant_decoding(s, v));
    lemma_tolerant_decode_is(s, v);
}

/// Base64 text is ASCII: every byte of an encoding, in any dialect, is below 128; and a
/// padded encoding takes four symbols for every started group of three bytes.
pub proof fn lemma_encode_ascii_and_length(d: Dialect, v: Seq<u8>)
    ensures
        forall|i: int|
            0 <= i < base64_encode(d, v).len() ==> #[trigger] base64_encode(d, v)[i] < 128,
        padded(d) ==> base64_encode(d, v).len() == 4 * ((v.len() + 2) / 3),
    decreases v.len(),
{
    let e = base64_encode(d, v);
    if 1 <= v.len() <= 3 {
        lemma_group_shape(d, v);
        assert forall|i: int| 0 <= i < e.len() implies #[trigger] e[i] < 128 by {
            let g = v;
            let v1 = g[0] as int;
            let v2 = if g.len() > 1 { g[1] as int } else { 0 };
            let v3 = if g.len() > 2 { g[2] as int } else { 0 };
            assert(symbol(url_safe(d), v1 / 4) < 128);
            assert(symbol(url_safe(d), (v1 % 4) * 16 + v2 / 16) < 128);
            assert(symbol(url_safe(d), (v2 % 16) * 4 + v3 / 64) < 128);
            assert(symbol(url_safe(d), v3 % 64) < 128);
        }
    } else if v.len() > 3 {
        let g = v.take(3);
        let r = base64_encode(d, v.skip(3));
        lemma_group_shape(d, g);
        lemma_encode_ascii_and_length(d, v.skip(3));
        assert forall|i: int| 0 <= i < e.len() implies #[trigger] e[i] < 128 by {
            if i < 4 {
                let v1 = g[0] as int;
                let v2 = g[1] as int;
                let v3 = g[2] as int;
                assert(symbol(url_safe(d), v1 / 4) < 128);
                assert(symbol(url_safe(d), (v1 % 4) * 16 + v2 / 16) < 128);
                assert(symbol(url_safe(d), (v2 % 16) * 4 + v3 / 64) < 128);
                assert(symbol(url_safe(d), v3 % 64) < 128);
                assert(e[i] == encode_group(d, g)[i]);
            } else {
                assert(e[i] == r[i - 4]);
            }
        }
    }
}

/// Calls `base64::engine::general_purpose::STANDARD.encode`: the standard alphabet,
/// three bytes to four symbols, the last group padded with `=`. The crate computes the
/// output length with checked arithmetic and panics on overflow, which an input of at
/// most `isize::MAX` bytes never reaches.
#[verifier::external_body]
fn standard_encode(data: &[u8]) -> (text: String)
    requires
        data@.len() <= isize::MAX,
    ensures
        text@ == ascii_chars(base64_encode(Dialect::Standard, data@)),
{
    STANDARD.encode(data)
}

/// Calls `base64::engine::general_purpose::STANDARD.decode`. That engine requires
/// canonical padding and rejects non-zero trailing bits, so it accepts exactly the
/// standard padded encodings, and returns the bytes that were encoded.
#[verifier::external_body]
fn standard_decode(input: &[u8]) -> (bytes: Option<Vec<u8>>)
    ensures
        bytes matches Some(v) ==> base64_encode(Dialect::Standard, v@) == input@,
        bytes is None <==> !encodes(Dialect::Standard, input@),
{
    STANDARD.decode(input).ok()
}

/// Calls `base64::engine::general_purpose::STANDARD_NO_PAD.decode`. That engine
/// rejects any padding and non-zero trailing bits, so it accepts exactly the standard
/// unpadded encodings, and returns the bytes that were encoded.
#[verifier::external_body]
fn standard_no_pad_decode(input: &[u8]) -> (bytes: Option<Vec<u8>>)
    ensures
        bytes matches Some(v) ==> base64_encode(Dialect::StandardNoPad, v@) == input@,
        bytes is None <==> !encodes(Dialect::StandardNoPad, input@),
{
    STANDARD_NO_PAD.decode(input).ok()
}

/// Calls `base64::engine::general_purpose::URL_SAFE.decode`. That engine requires
/// canonical padding and rejects non-zero trailing bits, so it accepts exactly the
/// URL-safe padded encodings, and returns the bytes that were encoded.
#[verifier::external_body]
fn url_safe_decode(input: &[u8]) -> (bytes: Option<Vec<u8>>)
    ensures
        bytes matches Some(v) ==> base64_encode(Dialect::UrlSafe, v@) == input@,
        bytes is None <==> !encodes(Dialect::UrlSafe, input@),
{
    URL_SAFE.decode(input).ok()
}

/// Calls `base64::engine::general_purpose::URL_SAFE_NO_PAD.decode`. That engine
/// rejects any padding and non-zero trailing bits, so it accepts exactly the URL-safe
/// unpadded encodings, and returns the bytes that were encoded.
#[verifier::external_body]
fn url_safe_no_pad_decode(input: &[u8]) -> (bytes: Option<Vec<u8>>)
    ensures
        bytes matches Some(v) ==> base64_encode(Dialect::UrlSafeNoPad, v@) == input@,
        bytes is None <==> !encodes(Dialect::UrlSafeNoPad, input@),
{
    URL_SAFE_NO_PAD.decode(input).ok()
}

/// Encode raw bytes as standard (RFC 4648 §4) base64 with padding.
pub fn encode(data: &[u8]) -> (text: String)
    requires
        data@.len() <= isize::MAX,
    ensures
        text@ == ascii_chars(base64_encode(Dialect::Standard, data@)),
{
    standard_encode(data)
}

/// Decode a base64 string in any of the four tolerated dialects into raw bytes.
///
/// Returns `None` when the input is not valid base64 in any of them.
pub fn decode(data: &str) -> (bytes: Option<Vec<u8>>)
    ensures
        bytes is None <==> tolerant_decode(vstd::utf8::encode_utf8(data@)) is None,
        bytes matches Some(v) ==> tolerant_decode(vstd::utf8::encode_utf8(data@)) == Some(v@),
{
    let input = data.as_bytes();
    let ghost s = input@;
    if let Some(v) = standard_decode(input) {
        proof {
            lemma_tolerant_decode_is(s, v@);
        }
        return Some(v);
    }
    if let Some(v) = standard_no_pad_decode(input) {
        proof {
            lemma_tolerant_decode_is(s, v@);
        }
        return Some(v);
    }
    if let Some(v) = url_safe_decode(input) {
        proof {
            lemma_tolerant_decode_is(s, v@);
        }
        return Some(v);
    }
    if let Some(v) = url_safe_no_pad_decode(input) {
        proof {
            lemma_tolerant_decode_is(s, v@);
        }
        return Some(v);
    }
    None
}

} // verus!
