pub mod auth;
pub mod post;
pub mod words;

use vstd::prelude::*;

verus! {

/// An error reported by the instance: a context line and the message under it.
#[derive(Debug, Clone)]
pub struct ApiError {
    pub context: String,
    pub message: String,
}

/// Whether an HTTP status code is in the success class.
pub open spec fn success_status(status: u16) -> bool {
    200 <= status < 300
}

pub fn is_success(status: u16) -> (r: bool)
    ensures
        r == success_status(status),
{
    200 <= status && status < 300
}


pub open spec fn opt_view(o: Option<String>) -> Option<Seq<char>> {
    match o {
        Some(s) => Some(s@),
        None => None,
    }
}

/// One member of a JSON object.
#[derive(Debug, Clone)]
pub enum JsonMember {
    /// No JSON object, no such member, or `null`.
    Absent,
    /// A string.
    Text(String),
    /// Any other kind of value.
    Other,
}

pub open spec fn member_view(m: JsonMember) -> Option<Option<Seq<char>>> {
    match m {
        JsonMember::Absent => None,
        JsonMember::Text(s) => Some(Some(s@)),
        JsonMember::Other => Some(None),
    }
}

/// What serde_json makes of the member `key` of `text` read as a JSON object:
/// `None` where there is no object, no such member, or `null`; the string
/// where it is one; `Some(None)` for any other value.
pub uninterp spec fn json_member_of(text: Seq<char>, key: Seq<char>) -> Option<Option<Seq<char>>>;

/// Relies on serde_json::from_str into a serde_json::Value, and on Value::get
/// to read one member of an object.
#[verifier::external_body]
fn json_member(text: &str, key: &str) -> (r: JsonMember)
    ensures
        member_view(r) == json_member_of(text@, key@),
{
    let value = match serde_json::from_str::<serde_json::Value>(text) {
        Ok(v) => v,
        Err(_) => return JsonMember::Absent,
    };
    match value.get(key) {
        None => JsonMember::Absent,
        Some(serde_json::Value::Null) => JsonMember::Absent,
        Some(serde_json::Value::String(s)) => JsonMember::Text(s.clone()),
        Some(_) => JsonMember::Other,
    }
}

/// The member `key` of `text` where it is a string.
pub open spec fn json_str_member_of(text: Seq<char>, key: Seq<char>) -> Option<Seq<char>> {
    match json_member_of(text, key) {
        Some(Some(s)) => Some(s),
        _ => None,
    }
}

pub(crate) fn json_str_member(text: &str, key: &str) -> (r: Option<String>)
    ensures
        opt_view(r) == json_str_member_of(text@, key@),
{
    match json_member(text, key) {
        JsonMember::Text(s) => Some(s),
        _ => None,
    }
}

impl ApiError {
    pub open spec fn view(self) -> (Seq<char>, Seq<char>) {
        (self.context@, self.message@)
    }
}

/// The error an instance reports, from its `error` and `error_description`
/// members: the description is the message under the `error` line where both
/// are strings; `error` alone is the message under `fallback` where there is
/// no description; otherwise (no string `error`, or a description that is
/// neither a string nor `null`) the raw body is the message under `fallback`.
pub open spec fn remote_error_spec(
    error: Option<Option<Seq<char>>>,
    description: Option<Option<Seq<char>>>,
    raw: Seq<char>,
    fallback: Seq<char>,
) -> (Seq<char>, Seq<char>) {
    match error {
        Some(Some(e)) => match description {
            None => (fallback, e),
            Some(Some(d)) => (e, d),
            Some(None) => (fallback, raw),
        },
        _ => (fallback, raw),
    }
}

/// Builds the error from the members already read out of the body.
pub fn describe_remote_error(
    error: JsonMember,
    description: JsonMember,
    raw: &str,
    fallback: &str,
) -> (r: ApiError)
    ensures
        r.view() == remote_error_spec(member_view(error), member_view(description), raw@, fallback@),
{
    match error {
        JsonMember::Text(e) => match description {
            JsonMember::Absent => ApiError { context: String::from_str(fallback), message: e },
            JsonMember::Text(d) => ApiError { context: e, message: d },
            JsonMember::Other => ApiError {
                context: String::from_str(fallback),
                message: String::from_str(raw),
            },
        },
        _ => ApiError { context: String::from_str(fallback), message: String::from_str(raw) },
    }
}

/// Decodes the body of a failed response: `{error}` or
/// `{error, error_description}`, or else the raw text.
pub fn remote_error(body: &str, fallback: &str) -> (r: ApiError)
    ensures
        r.view() == remote_error_spec(
            json_member_of(body@, "error"@),
            json_member_of(body@, "error_description"@),
            body@,
            fallback@,
        ),
{
    let error = json_member(body, "error");
    let description = json_member(body, "error_description");
    describe_remote_error(error, description, body, fallback)
}

} // verus!
