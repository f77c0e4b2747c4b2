//! Cryptographic hashing and message authentication.
//!
//! Every digest is returned as a lowercase hex string, the format most streaming sites
//! expect when signing request parameters.
use digest::Digest;
use hmac::{Hmac, Mac};
use md5::Md5;
use sha1::Sha1;
use sha2::Sha256;
use vstd::prelude::*;

verus! {

/// The MD5 digest of `data` (RFC 1321), as computed by the `md-5` crate.
pub uninterp spec fn md5_digest(data: Seq<u8>) -> Seq<u8>;

/// The SHA-1 digest of `data` (FIPS 180-4), as computed by the `sha1` crate.
pub uninterp spec fn sha1_digest(data: Seq<u8>) -> Seq<u8>;

/// The SHA-256 digest of `data` (FIPS 180-4), as computed by the `sha2` crate.
pub uninterp spec fn sha256_digest(data: Seq<u8>) -> Seq<u8>;

/// The HMAC-SHA1 tag of `data` under `key` (RFC 2104), as computed by the `hmac` crate.
pub uninterp spec fn hmac_sha1_tag(key: Seq<u8>, data: Seq<u8>) -> Seq<u8>;

/// The HMAC-SHA256 tag of `data` under `key` (RFC 2104), as computed by the `hmac` crate.
pub uninterp spec fn hmac_sha256_tag(key: Seq<u8>, data: Seq<u8>) -> Seq<u8>;

/// The lowercase hex digit for a value from 0 to 15.
pub open spec fn hex_digit(n: int) -> char {
    if n < 10 {
        (48 + n) as char
    } else {
        (97 + n - 10) as char
    }
}

/// Lowercase hex: two digits per byte, the high nibble first.
pub open spec fn lower_hex(bytes: Seq<u8>) -> Seq<char> {
    Seq::new(
        (2 * bytes.len()) as nat,
        |i: int|
            if i % 2 == 0 {
                hex_digit(bytes[i / 2] as int / 16)
            } else {
                hex_digit(bytes[i / 2] as int % 16)
            },
    )
}

/// Lowercase hex uses only the digits `0`-`9` and `a`-`f`.
pub proof fn lemma_lower_hex_alphabet(bytes: Seq<u8>)
    ensures
        forall|i: int|
            0 <= i < lower_hex(bytes).len() ==> ('0' <= #[trigger] lower_hex(bytes)[i] <= '9')
                || ('a' <= lower_hex(bytes)[i] <= 'f'),
{
}

proof fn lemma_hex_digit_injective(x: int, y: int)
    requires
        0 <= x < 16,
        0 <= y < 16,
        hex_digit(x) == hex_digit(y),
    ensures
        x == y,
{
    let cx = if x < 10 { 48 + x } else { 97 + x - 10 };
    let cy = if y < 10 { 48 + y } else { 97 + y - 10 };
    assert(hex_digit(x) as int == cx);
    assert(hex_digit(y) as int == cy);
}

/// Lowercase hex loses nothing: equal hex strings come from equal bytes.
pub proof fn lemma_lower_hex_injective(a: Seq<u8>, b: Seq<u8>)
    requires
        lower_hex(a) == lower_hex(b),
    ensures
        a == b,
{
    assert(lower_hex(a).len() == 2 * a.len());
    assert forall|i: int| 0 <= i < a.len() implies a[i] == b[i] by {
        assert(lower_hex(a)[2 * i] == lower_hex(b)[2 * i]);
        assert(lower_hex(a)[2 * i + 1] == lower_hex(b)[2 * i + 1]);
        assert((2 * i) / 2 == i && (2 * i) % 2 == 0);
        assert((2 * i + 1) / 2 == i && (2 * i + 1) % 2 == 1);
        assert(lower_hex(a)[2 * i] == hex_digit(a[i] as int / 16));
        assert(lower_hex(b)[2 * i] == hex_digit(b[i] as int / 16));
        assert(lower_hex(a)[2 * i + 1] == hex_digit(a[i] as int % 16));
        assert(lower_hex(b)[2 * i + 1] == hex_digit(b[i] as int % 16));
        lemma_hex_digit_injective(a[i] as int / 16, b[i] as int / 16);
        lemma_hex_digit_injective(a[i] as int % 16, b[i] as int % 16);
    }
    assert(a =~= b);
}

/// Calls `String::push`: `c` is appended to `s`.
#[verifier::external_body]
fn push_char(s: &mut String, c: char)
    ensures
        final(s)@ == old(s)@.push(c),
{
    s.push(c);
}

fn nibble_digit(n: u8) -> (c: char)
    requires
        n < 16,
    ensures
        c == hex_digit(n as int),
{
    if n < 10 {
        (48u8 + n) as char
    } else {
        (87u8 + n) as char
    }
}

/// Format bytes as lowercase hex, two digits per byte.
pub fn to_hex(bytes: &[u8]) -> (out: String)
    ensures
        out@ == lower_hex(bytes@),
{
    let mut out = String::new();
    let n = bytes.len();
    for i in 0..n
        invariant
            n == bytes@.len(),
            out@ == lower_hex(bytes@.take(i as int)),
    {
        let byte = bytes[i];
        push_char(&mut out, nibble_digit(byte / 16));
        push_char(&mut out, nibble_digit(byte % 16));
        assert(out@ =~= lower_hex(bytes@.take(i + 1)));
    }
    assert(bytes@.take(n as int) =~= bytes@);
    out
}

/// The string that the host handed back, or the empty string when it handed back none.
pub fn hex_result(reply: Option<String>) -> (out: String)
    ensures
        reply matches Some(s) ==> out == s,
        reply is None ==> out@ == Seq::<char>::empty(),
{
    match reply {
        Some(s) => s,
        None => String::new(),
    }
}

/// Calls `md5::Md5::digest` (the `Digest` trait of the `digest` crate): the 16-byte MD5
/// digest of `data`.
#[verifier::external_body]
fn md5_bytes(data: &[u8]) -> (d: Vec<u8>)
    ensures
        d@ == md5_digest(data@),
        d@.len() == 16,
{
    <Md5 as Digest>::digest(data).to_vec()
}

/// Calls `sha1::Sha1::digest` (the `Digest` trait of the `digest` crate): the 20-byte
/// SHA-1 digest of `data`.
#[verifier::external_body]
fn sha1_bytes(data: &[u8]) -> (d: Vec<u8>)
    ensures
        d@ == sha1_digest(data@),
        d@.len() == 20,
{
    <Sha1 as Digest>::digest(data).to_vec()
}

/// Calls `sha2::Sha256::digest` (the `Digest` trait of the `digest` crate): the 32-byte
/// SHA-256 digest of `data`.
#[verifier::external_body]
fn sha256_bytes(data: &[u8]) -> (d: Vec<u8>)
    ensures
        d@ == sha256_digest(data@),
        d@.len() == 32,
{
    <Sha256 as Digest>::digest(data).to_vec()
}

/// Calls `Hmac::<Sha1>::new_from_slice` (the `Mac` trait of the `digest` crate), then
/// `chain_update` with `data` and `finalize`: the 20-byte HMAC-SHA1 tag. HMAC accepts
/// keys of any length (`HmacCore::new_from_slice` always returns `Ok`), so a tag is
/// always returned.
#[verifier::external_body]
fn hmac_sha1_bytes(key: &[u8], data: &[u8]) -> (tag: Option<Vec<u8>>)
    ensures
        tag is Some,
        tag matches Some(t) ==> t@ == hmac_sha1_tag(key@, data@),
        tag matches Some(t) ==> t@.len() == 20,
{
    match <Hmac<Sha1> as Mac>::new_from_slice(key) {
        Ok(mac) => Some(mac.chain_update(data).finalize().into_bytes().to_vec()),
        Err(_) => None,
    }
}

/// Calls `Hmac::<Sha256>::new_from_slice` (the `Mac` trait of the `digest` crate), then
/// `chain_update` with `data` and `finalize`: the 32-byte HMAC-SHA256 tag. HMAC accepts
/// keys of any length (`HmacCore::new_from_slice` always returns `Ok`), so a tag is
/// always returned.
#[verifier::external_body]
fn hmac_sha256_bytes(key: &[u8], data: &[u8]) -> (tag: Option<Vec<u8>>)
    ensures
        tag is Some,
        tag matches Some(t) ==> t@ == hmac_sha256_tag(key@, data@),
        tag matches Some(t) ==> t@.len() == 32,
{
    match <Hmac<Sha256> as Mac>::new_from_slice(key) {
        Ok(mac) => Some(mac.chain_update(data).finalize().into_bytes().to_vec()),
        Err(_) => None,
    }
}

/// The HMAC-SHA1 tag of `data` under `key` in lowercase hex, or `None` when the MAC
/// cannot be keyed.
pub fn hmac_sha1_hex(data: &[u8], key: &[u8]) -> (out: Option<String>)
    ensures
        out matches Some(s) && s@ == lower_hex(hmac_sha1_tag(key@, data@)) && s@.len() == 40,
{
    match hmac_sha1_bytes(key, data) {
        Some(tag) => Some(to_hex(tag.as_slice())),
        None => None,
    }
}

/// The HMAC-SHA256 tag of `data` under `key` in lowercase hex, or `None` when the MAC
/// cannot be keyed.
pub fn hmac_sha256_hex(data: &[u8], key: &[u8]) -> (out: Option<String>)
    ensures
        out matches Some(s) && s@ == lower_hex(hmac_sha256_tag(key@, data@)) && s@.len() == 64,
{
    match hmac_sha256_bytes(key, data) {
        Some(tag) => Some(to_hex(tag.as_slice())),
        None => None,
    }
}

/// MD5 digest of `data`, lowercase hex.
pub fn md5(data: &str) -> (out: String)
    ensures
        out@ == lower_hex(md5_digest(vstd::utf8::encode_utf8(data@))),
        out@.len() == 32,
{
    let d = md5_bytes(data.as_bytes());
    to_hex(d.as_slice())
}

/// SHA-1 digest of `data`, lowercase hex.
pub fn sha1(data: &str) -> (out: String)
    ensures
        out@ == lower_hex(sha1_digest(vstd::utf8::encode_utf8(data@))),
        out@.len() == 40,
{
    let d = sha1_bytes(data.as_bytes());
    to_hex(d.as_slice())
}

/// SHA-256 digest of `data`, lowercase hex.
pub fn sha256(data: &str) -> (out: String)
    ensures
        out@ == lower_hex(sha256_digest(vstd::utf8::encode_utf8(data@))),
        out@.len() == 64,
{
    let d = sha256_bytes(data.as_bytes());
    to_hex(d.as_slice())
}

/// HMAC-SHA1 of `data` keyed by `key`, lowercase hex.
pub fn hmac_sha1(data: &str, key: &str) -> (out: String)
    ensures
        out@ == lower_hex(
            hmac_sha1_tag(vstd::utf8::encode_utf8(key@), vstd::utf8::encode_utf8(data@)),
        ),
        out@.len() == 40,
{
    hex_result(hmac_sha1_hex(data.as_bytes(), key.as_bytes()))
}

/// HMAC-SHA256 of `data` keyed by `key`, lowercase hex.
pub fn hmac_sha256(data: &str, key: &str) -> (out: String)
    ensures
        out@ == lower_hex(
            hmac_sha256_tag(vstd::utf8::encode_utf8(key@), vstd::utf8::encode_utf8(data@)),
        ),
        out@.len() == 64,
{
    hex_result(hmac_sha256_hex(data.as_bytes(), key.as_bytes()))
}

} // verus!
