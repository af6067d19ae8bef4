//! HTTP request headers as plain values, and the test of what may stand in a
//! header's value.

use reqwest::header::{HeaderValue, InvalidHeaderValue};
use vstd::prelude::*;
use vstd::utf8::encode_utf8;

verus! {

/// One request header. A sensitive value is kept out of logs.
#[derive(Debug, Clone, PartialEq, Eq)]
pub struct Header {
    pub name: String,
    pub value: String,
    pub sensitive: bool,
}

/// The mathematical content of a [`Header`].
pub struct HeaderView {
    pub name: Seq<char>,
    pub value: Seq<char>,
    pub sensitive: bool,
}

impl View for Header {
    type V = HeaderView;

    open spec fn view(&self) -> HeaderView {
        HeaderView { name: self.name@, value: self.value@, sensitive: self.sensitive }
    }
}

/// The views of a list of headers.
pub open spec fn header_views(headers: Seq<Header>) -> Seq<HeaderView> {
    Seq::new(headers.len(), |i: int| headers[i]@)
}

/// The error of the `http` crate for a text that cannot be a header value.
#[verifier::external_type_specification]
#[verifier::external_body]
pub struct ExInvalidHeaderValue(InvalidHeaderValue);

/// A byte that may stand in a header value: a tab, or any byte from the space
/// upwards but the delete character.
pub open spec fn is_header_value_byte(b: u8) -> bool {
    (b >= 32 && b != 127) || b == 9
}

/// Every byte may stand in a header value.
pub open spec fn is_header_value(bytes: Seq<u8>) -> bool {
    forall|i: int| 0 <= i < bytes.len() ==> is_header_value_byte(#[trigger] bytes[i])
}

/// `HeaderValue::from_str` of the `http` crate, as `reqwest` hands it on:
/// the text is accepted exactly when each byte of its UTF-8 encoding is a tab
/// or at least 32 and not 127. The value itself is dropped; only the verdict
/// comes back.
#[verifier::external_body]
fn header_value_from_str(value: &str) -> (checked: Result<(), InvalidHeaderValue>)
    ensures
        checked is Ok <==> is_header_value(encode_utf8(value@)),
{
    match HeaderValue::from_str(value) {
        Ok(_) => Ok(()),
        Err(err) => Err(err),
    }
}

/// The text of an `InvalidHeaderValue`, as its `Display` writes it.
#[verifier::external_body]
fn invalid_header_value_text(err: &InvalidHeaderValue) -> (text: String) {
    err.to_string()
}

/// Tests whether `value` can be sent as a header value. Where it cannot, the
/// error carries the description that the HTTP library gives.
pub fn check_header_value(value: &str) -> (checked: Result<(), String>)
    ensures
        checked is Ok <==> is_header_value(encode_utf8(value@)),
{
    match header_value_from_str(value) {
        Ok(()) => Ok(()),
        Err(err) => Err(invalid_header_value_text(&err)),
    }
}

/// A header that may be logged.
pub fn plain_header(name: &str, value: String) -> (header: Header)
    ensures
        header@ == (HeaderView { name: name@, value: value@, sensitive: false }),
{
    Header { name: String::from_str(name), value, sensitive: false }
}

/// A header whose value is kept out of logs.
pub fn sensitive_header(name: &str, value: String) -> (header: Header)
    ensures
        header@ == (HeaderView { name: name@, value: value@, sensitive: true }),
{
    Header { name: String::from_str(name), value, sensitive: true }
}

} // verus!
