//! Reading members of JSON replies, through serde_json.
use vstd::prelude::*;

verus! {

/// What serde_json reads from `body`, taken as the text of a JSON object,
/// under `key`: `None` where `body` is not a JSON object or the member holds
/// neither a string nor null; `Some(None)` where the member is absent or null;
/// `Some(Some(s))` where it holds the string `s`.
pub uninterp spec fn json_text_member(body: Seq<char>, key: Seq<char>) -> Option<Option<Seq<char>>>;

/// The view of an optional, possibly absent, text.
pub open spec fn text_member_view(m: Option<Option<String>>) -> Option<Option<Seq<char>>> {
    match m {
        None => None,
        Some(None) => Some(None),
        Some(Some(s)) => Some(Some(s@)),
    }
}

/// Relies on `serde_json::from_str` reading `body` as a JSON object
/// (`serde_json::Map`), and on the member that it holds under `key`.
#[verifier::external_body]
pub(crate) fn text_member(body: &str, key: &str) -> (r: Option<Option<String>>)
    ensures
        text_member_view(r) == json_text_member(body@, key@),
{
    let mut object =
        serde_json::from_str::<serde_json::Map<String, serde_json::Value>>(body).ok()?;
    match object.remove(key) {
        None => Some(None),
        Some(serde_json::Value::Null) => Some(None),
        Some(serde_json::Value::String(s)) => Some(Some(s)),
        Some(_) => None,
    }
}

} // verus!
