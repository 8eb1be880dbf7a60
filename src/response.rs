use vstd::prelude::*;

verus! {

/// What a response carries: text, or raw bytes relayed from elsewhere.
pub enum Body {
    Text(String),
    Bytes(Vec<u8>),
}

/// An HTTP response as the gateway decides it.
///
/// `content_type` is `None` where the server's default for the body applies.
pub struct Response {
    pub status: u16,
    pub content_type: Option<String>,
    pub body: Body,
}

pub enum BodyView {
    Text(Seq<char>),
    Bytes(Seq<u8>),
}

pub struct ResponseView {
    pub status: u16,
    pub content_type: Option<Seq<char>>,
    pub body: BodyView,
}

impl View for Body {
    type V = BodyView;

    open spec fn view(&self) -> BodyView {
        match self {
            Body::Text(t) => BodyView::Text(t@),
            Body::Bytes(b) => BodyView::Bytes(b@),
        }
    }
}

impl View for Response {
    type V = ResponseView;

    open spec fn view(&self) -> ResponseView {
        ResponseView {
            status: self.status,
            content_type: opt_text(self.content_type),
            body: self.body@,
        }
    }
}

/// The view of an optional string.
pub open spec fn opt_text(s: Option<String>) -> Option<Seq<char>> {
    match s {
        Some(t) => Some(t@),
        None => None,
    }
}

pub const STATUS_OK: u16 = 200;

pub const STATUS_BAD_REQUEST: u16 = 400;

pub const STATUS_INTERNAL_SERVER_ERROR: u16 = 500;

pub const STATUS_BAD_GATEWAY: u16 = 502;

/// A successful response with a text body and the server's default content type.
pub open spec fn text_reply(status: u16, text: Seq<char>) -> ResponseView {
    ResponseView { status, content_type: None, body: BodyView::Text(text) }
}

/// The JSON string literal that `serde_json` writes for `s`, quotes and
/// escapes included.
pub uninterp spec fn json_string_of(s: Seq<char>) -> Seq<char>;

/// Relies on `serde_json::to_string` applied to a `str`: it writes the JSON
/// string literal for `s` into a `Vec<u8>`, which cannot fail, so the
/// fallback is never taken.
#[verifier::external_body]
fn json_quote(s: &str) -> (r: String)
    ensures
        r@ == json_string_of(s@),
{
    serde_json::to_string(s).unwrap_or_default()
}

/// The structured error body `{"message":<text as a JSON string>}`.
pub open spec fn message_body(text: Seq<char>) -> Seq<char> {
    "{\"message\":"@ + json_string_of(text) + "}"@
}

/// Builds a text response with the server's default content type.
pub fn text_response(status: u16, text: String) -> (r: Response)
    ensures
        r@ == text_reply(status, text@),
{
    Response { status, content_type: None, body: Body::Text(text) }
}

/// Builds the structured error body for a failure description.
pub fn error_message(text: &str) -> (r: String)
    ensures
        r@ == message_body(text@),
{
    let quoted = json_quote(text);
    let r = String::from_str("{\"message\":").concat(quoted.as_str()).concat("}");
    r
}

} // verus!
