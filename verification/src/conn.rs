//! The contract between the verified layer and the HTTP driver.
//!
//! The driver issues requests and pulls response-body chunks; nothing
//! here touches a socket. A [`PreparedRequest`] carries everything a
//! request needs as owned plain values, computed eagerly, so the
//! stream a driver returns never borrows from the caller's arguments.
//! [`daemon_error`] shapes the terminal error for a non-success status.

use vstd::prelude::*;

use crate::error::ClientError;

verus! {

/// HTTP method of a prepared request.
#[derive(Clone, Copy, Debug, PartialEq, Eq, Structural)]
pub enum HttpMethod {
    Get,
    Post,
}

/// One fully-shaped request: method, endpoint path with query, and
/// JSON body if any. All owned, so a streaming response can outlive
/// every argument that shaped it.
pub struct PreparedRequest {
    pub method: HttpMethod,
    pub path: String,
    pub body: Option<String>,
}

/// The daemon message inside a structured JSON error body: the
/// `message` field, when the body is a JSON object carrying one as a
/// string. The extraction is a pure function of the bytes, so it has a
/// name that [`daemon_error`]'s contract can speak of.
pub uninterp spec fn error_message_of(body: Seq<u8>) -> Option<Seq<char>>;

/// Relies on serde_json::from_slice::<serde_json::Value>,
/// serde_json::Value::get and serde_json::Value::as_str: what they
/// extract depends on the body bytes alone.
#[verifier::external_body]
fn json_error_message(body: &[u8]) -> (r: Option<String>)
    ensures
        r matches Some(s) ==> error_message_of(body@) == Some(s@),
        r is None ==> error_message_of(body@) is None,
{
    let v: serde_json::Value = match serde_json::from_slice(body) {
        Ok(v) => v,
        Err(_) => return None,
    };
    match v.get("message").and_then(|m| m.as_str()) {
        Some(s) => Some(s.to_owned()),
        None => None,
    }
}

/// The body bytes read as text, invalid sequences replaced. The text
/// depends on the bytes alone.
pub uninterp spec fn lossy_text_of(body: Seq<u8>) -> Seq<char>;

/// Relies on String::from_utf8_lossy: the text depends on the bytes
/// alone.
#[verifier::external_body]
fn body_text(body: &[u8]) -> (r: String)
    ensures
        r@ == lossy_text_of(body@),
{
    String::from_utf8_lossy(body).into_owned()
}

/// The message a non-success response carries: the daemon's structured
/// message when the body is a JSON error object, else the raw body
/// text.
pub open spec fn daemon_message_of(body: Seq<u8>) -> Seq<char> {
    match error_message_of(body) {
        Some(m) => m,
        None => lossy_text_of(body),
    }
}

/// The terminal error for a non-success daemon status: the status code
/// with the message of [`daemon_message_of`].
pub fn daemon_error(status: u16, body: &[u8]) -> (e: ClientError)
    ensures
        e matches ClientError::Daemon(st, m) && st == status && m@ == daemon_message_of(body@),
{
    match json_error_message(body) {
        Some(m) => ClientError::Daemon(status, m),
        None => ClientError::Daemon(status, body_text(body)),
    }
}

} // verus!
