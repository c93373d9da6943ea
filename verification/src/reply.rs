//! Extraction of the reply text from the JSON body the completions
//! endpoint returns: either the message of a reported error, or the
//! generated text of the first choice.

use vstd::prelude::*;

verus! {

/// Why a reply body was rejected.
#[derive(Clone, Copy, Debug, PartialEq, Eq, Structural)]
pub enum ReplyError {
    /// The body is not well-formed JSON.
    Parse,
}

/// Whether a byte sequence is a well-formed JSON document.
pub uninterp spec fn json_parses(bytes: Seq<u8>) -> bool;

/// The message a reply body's error object carries: present exactly
/// when the parsed body has an `error` member. It reads as the decoded
/// payload when `error.message` is a string, as its JSON notation
/// otherwise, and as the JSON null's notation when it is absent.
pub uninterp spec fn error_message_of(bytes: Seq<u8>) -> Option<Seq<char>>;

/// The generated text of a reply body's first choice, read at
/// `choices[0].text` by the same rules as the error message, with the
/// JSON null's notation for any missing step of the path. Meaningful
/// for a body that parses.
pub uninterp spec fn first_choice_text_of(bytes: Seq<u8>) -> Seq<char>;

/// Relies on serde_json::from_slice, Value::get, Value::as_str and
/// Value's Display impl: reads the message of the error object out of
/// a reply body. The result depends on the bytes alone; it is present
/// exactly when the body parses and carries an `error` member.
#[verifier::external_body]
fn json_error_message(body: &[u8]) -> (r: Option<String>)
    ensures
        r is Some <==> (json_parses(body@) && error_message_of(body@) is Some),
        r matches Some(s) ==> Some(s@) == error_message_of(body@),
{
    let v: serde_json::Value = serde_json::from_slice(body).ok()?;
    let e = v.get("error")?;
    Some(match e.get("message") {
        Some(m) => match m.as_str() {
            Some(s) => s.to_owned(),
            None => m.to_string(),
        },
        None => String::from("null"),
    })
}

/// Relies on serde_json::from_slice, Value::get, Value::as_str and
/// Value's Display impl: reads the first choice's text out of a reply
/// body. The result depends on the bytes alone; it is present exactly
/// when the body parses.
#[verifier::external_body]
fn json_first_choice_text(body: &[u8]) -> (r: Option<String>)
    ensures
        r is Some <==> json_parses(body@),
        r matches Some(s) ==> s@ == first_choice_text_of(body@),
{
    let v: serde_json::Value = serde_json::from_slice(body).ok()?;
    let t = match v.get("choices") {
        Some(c) => match c.get(0) {
            Some(f) => f.get("text"),
            None => None,
        },
        None => None,
    };
    Some(match t {
        Some(x) => match x.as_str() {
            Some(s) => s.to_owned(),
            None => x.to_string(),
        },
        None => String::from("null"),
    })
}

/// Extracts the reply text from a response body. A body that is not
/// well-formed JSON is rejected, and exactly those bodies are. When
/// the reply carries an error object, its message is returned as
/// ordinary text, so that the caller displays it like any other
/// reply; otherwise the generated text of the first choice is
/// returned.
pub fn extract_reply(body: &[u8]) -> (r: Result<String, ReplyError>)
    ensures
        r is Ok <==> json_parses(body@),
        !json_parses(body@) ==> r == Result::<String, ReplyError>::Err(ReplyError::Parse),
        json_parses(body@) ==> (error_message_of(body@) matches Some(m)
            ==> (r matches Ok(t) && t@ == m)),
        json_parses(body@) && error_message_of(body@) is None
            ==> (r matches Ok(t) && t@ == first_choice_text_of(body@)),
{
    match json_error_message(body) {
        Some(message) => Ok(message),
        None => match json_first_choice_text(body) {
            Some(text) => Ok(text),
            None => Err(ReplyError::Parse),
        },
    }
}

} // verus!
