use komorei::imports::base64::{decode, encode};

#[test]
fn encode_rfc4648_vectors() {
    assert_eq!(encode(b""), "");
    assert_eq!(encode(b"f"), "Zg==");
    assert_eq!(encode(b"fo"), "Zm8=");
    assert_eq!(encode(b"foo"), "Zm9v");
    assert_eq!(encode(b"foob"), "Zm9vYg==");
    assert_eq!(encode(b"fooba"), "Zm9vYmE=");
    assert_eq!(encode(b"foobar"), "Zm9vYmFy");
}

#[test]
fn encode_uses_standard_alphabet() {
    assert_eq!(encode(&[0xfb, 0xff]), "+/8=");
}

#[test]
fn decode_standard_padded() {
    assert_eq!(decode("Zm9vYmE="), Some(b"fooba".to_vec()));
    assert_eq!(decode(""), Some(Vec::new()));
}

#[test]
fn decode_standard_unpadded() {
    assert_eq!(decode("Zm9vYg"), Some(b"foob".to_vec()));
    assert_eq!(decode("+/8"), Some(vec![0xfb, 0xff]));
}

#[test]
fn decode_url_safe_padded_and_unpadded() {
    assert_eq!(decode("-_8="), Some(vec![0xfb, 0xff]));
    assert_eq!(decode("-_8"), Some(vec![0xfb, 0xff]));
}

#[test]
fn decode_rejects_invalid_input() {
    assert_eq!(decode("Zm9v!"), None);
    assert_eq!(decode("Zg="), None);
    assert_eq!(decode("Z"), None);
    assert_eq!(decode("Zh=="), None);
    assert_eq!(decode("+_8="), None);
}

#[test]
fn decode_undoes_encode() {
    let data: Vec<u8> = (0u8..=255).collect();
    for len in 0..data.len() {
        let text = encode(&data[..len]);
        assert_eq!(decode(&text), Some(data[..len].to_vec()));
    }
}
