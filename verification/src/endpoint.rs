//! The endpoint client's side of the wire: what is sent for a prompt, and
//! what text a reply stands for.
//!
//! The transport itself is the caller's. It hands over the status and body
//! of the reply that came back, or the fact that none did.

use vstd::prelude::*;
use vstd::string::StringExecFns;
use crate::json::{
    json_member, json_parse, json_tree, member, parse_value, single_text_object, text_or_empty,
    Json,
};

verus! {

/// Where the endpoint listens unless the caller says otherwise.
pub const CHAT_ENDPOINT: &'static str = "http://localhost:8000/chat";

/// What the transport brought back for one request.
#[derive(Debug)]
pub enum Transport {
    /// No usable reply: the connection failed or timed out, or the status was
    /// not a success.
    Failed,
    /// The body of a reply with a success status.
    Replied(String),
}

/// What a reply with this status and body counts as. A status outside the
/// success range, or a body that could not be had as text, is a failure of
/// the transport.
pub open spec fn reply_for(status: u16, body: Option<String>) -> Transport {
    match body {
        Some(text) => if 200 <= status < 300 {
            Transport::Replied(text)
        } else {
            Transport::Failed
        },
        None => Transport::Failed,
    }
}

/// Sorts a reply by its status and body.
pub fn reply_of(status: u16, body: Option<String>) -> (reply: Transport)
    ensures
        reply == reply_for(status, body),
{
    match body {
        Some(text) => if 200 <= status && status < 300 {
            Transport::Replied(text)
        } else {
            Transport::Failed
        },
        None => Transport::Failed,
    }
}

/// The text that stands in for a reply that could not be had.
pub open spec fn failure_sentinel() -> Seq<char> {
    "ERROR: Could not connect to chat endpoint"@
}

/// The request for a prompt: an object with the prompt as its one field.
pub open spec fn payload_tree(prompt: Seq<char>) -> Json {
    Json::Object(Map::empty().insert("prompt"@, Json::Text(prompt)))
}

/// The response text that a reply document carries: the string under
/// `response`, and the empty text where there is none.
pub open spec fn document_response(document: Json) -> Seq<char> {
    text_or_empty(json_member(document, "response"@))
}

/// The response text that a reply body stands for: that of its document, and
/// the sentinel where the body is no JSON.
pub open spec fn body_response(body: Seq<char>) -> Seq<char> {
    match json_parse(body) {
        Some(document) => document_response(document),
        None => failure_sentinel(),
    }
}

/// The response text that the transport's outcome stands for.
pub open spec fn reply_response(reply: Transport) -> Seq<char> {
    match reply {
        Transport::Failed => failure_sentinel(),
        Transport::Replied(body) => body_response(body@),
    }
}

/// The sentinel is not the empty text, so a missing field and a failed
/// transport read differently.
pub proof fn sentinel_is_not_empty()
    ensures
        failure_sentinel().len() > 0,
        failure_sentinel() != text_or_empty(Json::Null),
{
    reveal_strlit("ERROR: Could not connect to chat endpoint");
    assert(text_or_empty(Json::Null).len() == 0);
}

/// Builds the request document for a prompt.
pub fn request_payload(prompt: &str) -> (payload: serde_json::Value)
    ensures
        json_tree(payload) == payload_tree(prompt@),
{
    single_text_object("prompt", prompt)
}

/// Reads the response text out of a parsed reply.
pub fn response_field(document: &serde_json::Value) -> (text: String)
    ensures
        text@ == document_response(json_tree(*document)),
{
    match member(document, "response").as_str() {
        Some(text) => String::from_str(text),
        None => String::new(),
    }
}

/// The sentinel, as a string.
pub fn sentinel() -> (text: String)
    ensures
        text@ == failure_sentinel(),
{
    String::from_str("ERROR: Could not connect to chat endpoint")
}

/// Reads the response text out of a reply body.
pub fn response_from_body(body: &str) -> (text: String)
    ensures
        text@ == body_response(body@),
{
    match parse_value(body) {
        Ok(document) => response_field(&document),
        Err(_) => sentinel(),
    }
}

/// The response text for whatever the transport brought back. A failure
/// becomes the sentinel and is scored like any other text.
pub fn response_text(reply: &Transport) -> (text: String)
    ensures
        text@ == reply_response(*reply),
{
    match reply {
        Transport::Failed => sentinel(),
        Transport::Replied(body) => response_from_body(body.as_str()),
    }
}

} // verus!
