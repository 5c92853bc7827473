//! Interpretation of a completion service's response body.
//!
//! The response is a JSON document. A successful response carries the reply
//! under `choices[0].message.content`; a failed one carries a description
//! under `error.message`. The JSON reading itself is done by `serde_json`
//! behind a trusted declaration; the decision between the shapes is verified.

use vstd::prelude::*;

verus! {

/// Why no reply could be obtained from the completion service.
#[derive(Clone, Debug, PartialEq, Eq)]
pub enum CompletionError {
    /// The request never produced a response body.
    Network,
    /// The service answered with an error description of its own.
    Remote(String),
    /// The response was not of any shape this library knows.
    MalformedResponse,
}

/// Whether a text is a well-formed JSON document, as `serde_json` reads it.
pub uninterp spec fn json_parses(s: Seq<char>) -> bool;

/// Whether the document a text holds has a `choices` member at its top.
pub uninterp spec fn json_has_choices(s: Seq<char>) -> bool;

/// The text under `choices[0].message.content` of the document a text
/// holds, when a JSON string stands there.
pub uninterp spec fn json_content(s: Seq<char>) -> Option<Seq<char>>;

/// The text under `error.message` of the document a text holds, when a
/// JSON string stands there.
pub uninterp spec fn json_error_message(s: Seq<char>) -> Option<Seq<char>>;

/// Relies on `serde_json::from_str::<Value>`, `Value::get`, `Value::pointer`
/// and `Value::as_str`: parsing returns `Ok` exactly on well-formed JSON
/// documents, `get` finds a top-level member by name, `pointer` resolves a
/// path and returns `None` on any miss, and `as_str` gives the text of a
/// JSON string value and `None` for every other kind of value. Each outcome
/// depends on the body text alone.
#[verifier::external_body]
fn read_response(body: &str) -> (r: Option<(bool, Option<String>, Option<String>)>)
    ensures
        r is Some <==> json_parses(body@),
        r matches Some(t) ==> {
            &&& t.0 == json_has_choices(body@)
            &&& (match t.1 {
                Some(c) => json_content(body@) == Some(c@),
                None => json_content(body@) is None,
            })
            &&& (match t.2 {
                Some(m) => json_error_message(body@) == Some(m@),
                None => json_error_message(body@) is None,
            })
        },
{
    let v: serde_json::Value = match serde_json::from_str(body) {
        Ok(v) => v,
        Err(_) => return None,
    };
    let has_choices = v.get("choices").is_some();
    let content = match v.pointer("/choices/0/message/content") {
        Some(c) => c.as_str().map(String::from),
        None => None,
    };
    let error_message = match v.pointer("/error/message") {
        Some(m) => m.as_str().map(String::from),
        None => None,
    };
    Some((has_choices, content, error_message))
}

/// Decides what a response means, given which parts of it were found.
///
/// When a `choices` member was found, only the reply text under it counts:
/// its presence is success, its absence a malformed response. When none was
/// found, a service-reported error message is passed on as `Remote`, and
/// anything else is malformed.
pub fn classify_response(has_choices: bool, content: Option<String>, error_message: Option<
    String,
>) -> (r: Result<String, CompletionError>)
    ensures
        has_choices && content is Some ==> (r matches Ok(s) && s@ == content.unwrap()@),
        has_choices && content is None ==> r == Err::<String, _>(
            CompletionError::MalformedResponse,
        ),
        !has_choices && error_message is Some ==> (r matches Err(e) && e matches
            CompletionError::Remote(m) && m@ == error_message.unwrap()@),
        !has_choices && error_message is None ==> r == Err::<String, _>(
            CompletionError::MalformedResponse,
        ),
{
    if has_choices {
        match content {
            Some(s) => Ok(s),
            None => Err(CompletionError::MalformedResponse),
        }
    } else {
        match error_message {
            Some(m) => Err(CompletionError::Remote(m)),
            None => Err(CompletionError::MalformedResponse),
        }
    }
}

/// Reads a completion service's response body and returns the reply text it
/// carries, or the error it stands for.
///
/// A body that is not a JSON document is malformed. Otherwise the reply
/// under `choices[0].message.content` wins whenever a `choices` member is
/// present, and its absence under a present `choices` member is malformed;
/// with no `choices` member a reported `error.message` becomes `Remote`, and
/// everything else is malformed. No input makes this function report
/// `Network`: that failure belongs to the transport around the library.
pub fn get_completion(body: &str) -> (r: Result<String, CompletionError>)
    ensures
        !json_parses(body@) ==> r == Err::<String, _>(CompletionError::MalformedResponse),
        json_parses(body@) && json_has_choices(body@) && json_content(body@) is Some ==> (
        r matches Ok(s) && s@ == json_content(body@).unwrap()),
        json_parses(body@) && json_has_choices(body@) && json_content(body@) is None ==> r
            == Err::<String, _>(CompletionError::MalformedResponse),
        json_parses(body@) && !json_has_choices(body@) && json_error_message(body@) is Some ==> (
        r matches Err(e) && e matches CompletionError::Remote(m) && m@ == json_error_message(
            body@,
        ).unwrap()),
        json_parses(body@) && !json_has_choices(body@) && json_error_message(body@) is None ==> r
            == Err::<String, _>(CompletionError::MalformedResponse),
        !(r matches Err(e) && e is Network),
{
    match read_response(body) {
        None => Err(CompletionError::MalformedResponse),
        Some((has_choices, content, error_message)) => classify_response(
            has_choices,
            content,
            error_message,
        ),
    }
}

} // verus!
