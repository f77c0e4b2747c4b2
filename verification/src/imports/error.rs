//! Error handling for Komorei source library functions.
use std::rc::Rc;
use vstd::prelude::*;
use vstd::std_specs::convert::FromSpecImpl;

verus! {

/// Declares `std::str::Utf8Error`, which this crate carries unread.
#[verifier::external_type_specification]
#[verifier::external_body]
pub struct ExUtf8Error(std::str::Utf8Error);

/// Specifies `<Utf8Error as Clone>::clone`: `Utf8Error` is `Copy`, so the clone equals
/// the original.
pub assume_specification[ <std::str::Utf8Error as Clone>::clone ](e: &std::str::Utf8Error) -> (copy: std::str::Utf8Error)
    ensures
        copy == *e,
;

/// Declares `serde_json::Error`, which this crate carries unread.
#[verifier::external_type_specification]
#[verifier::external_body]
pub struct ExJsonError(serde_json::Error);

/// An error reported by the network import, identified by the host's result code.
#[derive(Debug, Clone, Copy, PartialEq, Eq)]
pub struct RequestError {
    pub code: i32,
}

/// An error reported by the HTML import, identified by the host's result code.
#[derive(Debug, Clone, Copy, PartialEq, Eq)]
pub struct HtmlError {
    pub code: i32,
}

/// An error reported by the JavaScript import, identified by the host's result code.
#[derive(Debug, Clone, Copy, PartialEq, Eq)]
pub struct JsError {
    pub code: i32,
}

/// An error reported by the canvas import, identified by the host's result code.
#[derive(Debug, Clone, Copy, PartialEq, Eq)]
pub struct CanvasError {
    pub code: i32,
}

/// An error passed back to the source runner.
#[derive(Debug, Clone)]
pub enum KomoreiError {
    /// This feature is unimplemented.
    Unimplemented,
    /// Pass a message back to the app.
    Message(String),
    /// There was an error making a request.
    RequestError(RequestError),
    /// There was an error performing an HTML operation.
    HtmlError(HtmlError),
    /// There was an error performing a JavaScript operation.
    JsError(JsError),
    /// There was an error handling a canvas operation.
    CanvasError(CanvasError),
    /// There was an error handling UTF-8 data.
    Utf8Error(std::str::Utf8Error),
    /// JSON parsing error.
    JsonParseError(Rc<serde_json::Error>),
    /// Deserialization error.
    DeserializeError,
}

/// The result type of source functions.
pub type Result<T> = core::result::Result<T, KomoreiError>;

impl KomoreiError {
    /// The code that the runner receives for this error.
    pub open spec fn code_of(&self) -> int {
        match self {
            KomoreiError::Unimplemented => -2,
            KomoreiError::RequestError(_) => -3,
            KomoreiError::HtmlError(_) => -4,
            KomoreiError::JsError(_) => -5,
            KomoreiError::CanvasError(_) => -6,
            KomoreiError::Utf8Error(_) => -7,
            KomoreiError::JsonParseError(_) => -8,
            KomoreiError::DeserializeError => -9,
            KomoreiError::Message(_) => -1,
        }
    }

    /// The code that the runner receives for this error: -1 for a message, and a
    /// distinct code from -2 to -9 for each other kind.
    pub fn error_code(&self) -> (code: i32)
        ensures
            code == self.code_of(),
    {
        match self {
            Self::Unimplemented => -2,
            Self::RequestError(_) => -3,
            Self::HtmlError(_) => -4,
            Self::JsError(_) => -5,
            Self::CanvasError(_) => -6,
            Self::Utf8Error(_) => -7,
            Self::JsonParseError(_) => -8,
            Self::DeserializeError => -9,
            Self::Message(_) => -1,
        }
    }

    /// Creates a new message error from anything that can be displayed.
    pub fn message<S: core::fmt::Display>(message: S) -> (err: Self)
        ensures
            err is Message,
            err matches KomoreiError::Message(m) ==> vstd::string::to_string_from_display_ensures::<S>(
                &message,
                m,
            ),
    {
        Self::Message(message.to_string())
    }
}

/// Two errors of different kinds never share a code, and only a message has code -1.
pub proof fn lemma_error_codes_distinct(a: KomoreiError, b: KomoreiError)
    requires
        a.code_of() == b.code_of(),
    ensures
        a is Unimplemented <==> b is Unimplemented,
        a is Message <==> b is Message,
        a is RequestError <==> b is RequestError,
        a is HtmlError <==> b is HtmlError,
        a is JsError <==> b is JsError,
        a is CanvasError <==> b is CanvasError,
        a is Utf8Error <==> b is Utf8Error,
        a is JsonParseError <==> b is JsonParseError,
        a is DeserializeError <==> b is DeserializeError,
{
}

impl From<RequestError> for KomoreiError {
    fn from(value: RequestError) -> (err: Self) {
        Self::RequestError(value)
    }
}

impl FromSpecImpl<RequestError> for KomoreiError {
    open spec fn obeys_from_spec() -> bool {
        true
    }

    open spec fn from_spec(v: RequestError) -> Self {
        KomoreiError::RequestError(v)
    }
}

impl From<HtmlError> for KomoreiError {
    fn from(error: HtmlError) -> (err: KomoreiError) {
        KomoreiError::HtmlError(error)
    }
}

impl FromSpecImpl<HtmlError> for KomoreiError {
    open spec fn obeys_from_spec() -> bool {
        true
    }

    open spec fn from_spec(v: HtmlError) -> Self {
        KomoreiError::HtmlError(v)
    }
}

impl From<JsError> for KomoreiError {
    fn from(error: JsError) -> (err: KomoreiError) {
        KomoreiError::JsError(error)
    }
}

impl FromSpecImpl<JsError> for KomoreiError {
    open spec fn obeys_from_spec() -> bool {
        true
    }

    open spec fn from_spec(v: JsError) -> Self {
        KomoreiError::JsError(v)
    }
}

impl From<CanvasError> for KomoreiError {
    fn from(error: CanvasError) -> (err: KomoreiError) {
        KomoreiError::CanvasError(error)
    }
}

impl FromSpecImpl<CanvasError> for KomoreiError {
    open spec fn obeys_from_spec() -> bool {
        true
    }

    open spec fn from_spec(v: CanvasError) -> Self {
        KomoreiError::CanvasError(v)
    }
}

impl From<std::str::Utf8Error> for KomoreiError {
    fn from(error: std::str::Utf8Error) -> (err: KomoreiError) {
        KomoreiError::Utf8Error(error)
    }
}

impl FromSpecImpl<std::str::Utf8Error> for KomoreiError {
    open spec fn obeys_from_spec() -> bool {
        true
    }

    open spec fn from_spec(v: std::str::Utf8Error) -> Self {
        KomoreiError::Utf8Error(v)
    }
}

impl From<serde_json::Error> for KomoreiError {
    fn from(error: serde_json::Error) -> (err: KomoreiError) {
        KomoreiError::JsonParseError(Rc::new(error))
    }
}

impl FromSpecImpl<serde_json::Error> for KomoreiError {
    open spec fn obeys_from_spec() -> bool {
        true
    }

    open spec fn from_spec(v: serde_json::Error) -> Self {
        KomoreiError::JsonParseError(Rc::new(v))
    }
}

} // verus!
