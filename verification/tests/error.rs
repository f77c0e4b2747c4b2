use komorei::imports::error::{CanvasError, HtmlError, JsError, RequestError};
use komorei::KomoreiError;

#[test]
fn message_error_code_is_minus_one() {
    let err = KomoreiError::Message(String::from("expected"));
    assert_eq!(err.error_code(), -1);
    assert_eq!(KomoreiError::message(String::from("x")).error_code(), -1);
    match KomoreiError::message("page 3") {
        KomoreiError::Message(m) => assert_eq!(m, "page 3"),
        other => panic!("unexpected {:?}", other),
    }
    match KomoreiError::message(42) {
        KomoreiError::Message(m) => assert_eq!(m, "42"),
        other => panic!("unexpected {:?}", other),
    }
}

#[test]
fn error_codes_per_kind() {
    assert_eq!(KomoreiError::Unimplemented.error_code(), -2);
    assert_eq!(KomoreiError::from(RequestError { code: 7 }).error_code(), -3);
    assert_eq!(KomoreiError::from(HtmlError { code: 7 }).error_code(), -4);
    assert_eq!(KomoreiError::from(JsError { code: 7 }).error_code(), -5);
    assert_eq!(KomoreiError::from(CanvasError { code: 7 }).error_code(), -6);
    let bytes = vec![0xffu8];
    let utf8 = std::str::from_utf8(&bytes).unwrap_err();
    assert_eq!(KomoreiError::from(utf8).error_code(), -7);
    let json = serde_json::from_str::<u8>("x").unwrap_err();
    assert_eq!(KomoreiError::from(json).error_code(), -8);
    assert_eq!(KomoreiError::DeserializeError.error_code(), -9);
}
