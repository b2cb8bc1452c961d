//! The body of an error reply: a JSON object of two strings.

use vstd::prelude::*;

verus! {

/// The record that an error reply carries to the client.
#[derive(Debug, PartialEq, Eq)]
pub struct ErrorResponse {
    /// What went wrong, in words meant for the client.
    pub message: String,
    /// The status line of the reply.
    pub status: String,
}

/// What an [`ErrorResponse`] holds.
pub struct ErrorResponseView {
    pub message: Seq<char>,
    pub status: Seq<char>,
}

impl View for ErrorResponse {
    type V = ErrorResponseView;

    open spec fn view(&self) -> ErrorResponseView {
        ErrorResponseView { message: self.message@, status: self.status@ }
    }
}

/// Whether JSON can hold every character of `text` as it is: none is a
/// control character, a quotation mark or a backslash.
pub open spec fn is_plain(text: Seq<char>) -> bool {
    forall|i: int|
        0 <= i < text.len() ==> {
            let c = #[trigger] text[i];
            c >= ' ' && c != '"' && c != '\\'
        }
}

/// `text` between quotation marks.
pub open spec fn quoted(text: Seq<char>) -> Seq<char> {
    seq!['"'] + text + seq!['"']
}

/// The JSON string literal for a `text` that is not plain, as `serde_json`
/// writes it.
pub uninterp spec fn json_escaped(text: Seq<char>) -> Seq<char>;

/// The JSON string literal for `text`: a plain text between quotation marks,
/// any other with its escapes.
pub open spec fn json_string(text: Seq<char>) -> Seq<char> {
    if is_plain(text) {
        quoted(text)
    } else {
        json_escaped(text)
    }
}

/// The JSON object with the members `message` and `status`, in this order and
/// without white space.
pub open spec fn json_object(message: Seq<char>, status: Seq<char>) -> Seq<char> {
    "{\"message\":"@ + json_string(message) + ",\"status\":"@ + json_string(status) + "}"@
}

/// `text` as a JSON string literal, by `serde_json::to_string`.
///
/// Trusted: for a `str` the call cannot fail; it writes a quotation mark, the
/// text with each control character, quotation mark and backslash replaced by
/// its escape and every other character unchanged, and a quotation mark.
#[verifier::external_body]
fn to_json_string(text: &str) -> (json: String)
    ensures
        is_plain(text@) ==> json@ == quoted(text@),
        !is_plain(text@) ==> json@ == json_escaped(text@),
{
    serde_json::to_string(text).unwrap_or_default()
}

impl ErrorResponse {
    /// Serializes the record as a JSON object.
    pub fn to_json(&self) -> (body: String)
        ensures
            body@ == json_object(self@.message, self@.status),
    {
        let message = to_json_string(self.message.as_str());
        let status = to_json_string(self.status.as_str());
        let mut body = String::from_str("{\"message\":");
        body.append(message.as_str());
        body.append(",\"status\":");
        body.append(status.as_str());
        body.append("}");
        body
    }
}

} // verus!
