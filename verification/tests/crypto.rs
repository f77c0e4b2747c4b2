use komorei::imports::crypto::{
    hex_result, hmac_sha1, hmac_sha1_hex, hmac_sha256, hmac_sha256_hex, md5, sha1, sha256, to_hex,
};

#[test]
fn to_hex_is_lowercase_two_digits_per_byte() {
    assert_eq!(to_hex(&[]), "");
    assert_eq!(to_hex(&[0x00, 0x0f, 0xa0, 0xff, 0x5c]), "000fa0ff5c");
}

#[test]
fn md5_known_digests() {
    assert_eq!(md5(""), "d41d8cd98f00b204e9800998ecf8427e");
    assert_eq!(md5("abc"), "900150983cd24fb0d6963f7d28e17f72");
}

#[test]
fn sha1_known_digests() {
    assert_eq!(sha1(""), "da39a3ee5e6b4b0d3255bfef95601890afd80709");
    assert_eq!(sha1("abc"), "a9993e364706816aba3e25717850c26c9cd0d89d");
}

#[test]
fn sha256_known_digests() {
    assert_eq!(sha256("abc"), "ba7816bf8f01cfea414140de5dae2223b00361a396177a9cb410ff61f20015ad");
}

#[test]
fn hmac_sha1_rfc2202_case2() {
    assert_eq!(
        hmac_sha1("what do ya want for nothing?", "Jefe"),
        "effcdf6ae5eb2fa2d27416d5f184df9c259a7c79"
    );
}

#[test]
fn hmac_sha256_rfc4231_case2() {
    assert_eq!(
        hmac_sha256("what do ya want for nothing?", "Jefe"),
        "5bdcc146bf60754e6a042426089575c75a003f089d2739839dec58b964ec3843"
    );
}

#[test]
fn hmac_hex_on_bytes_matches_str_form() {
    assert_eq!(
        hmac_sha1_hex(b"what do ya want for nothing?", b"Jefe").as_deref(),
        Some("effcdf6ae5eb2fa2d27416d5f184df9c259a7c79")
    );
    assert_eq!(
        hmac_sha256_hex(b"what do ya want for nothing?", b"Jefe").map(|s| s.len()),
        Some(64)
    );
}

#[test]
fn hex_result_defaults_to_empty() {
    assert_eq!(hex_result(None), "");
    assert_eq!(hex_result(Some(String::from("ab"))), "ab");
}
