//! Reading JSON documents with `serde_json`.
//!
//! A [`JsonNode`] is a value of a document that `serde_json` parsed, together
//! with (in ghost state) the text of the document and the member keys that lead
//! from the document's root to the value. What `serde_json` answers about such a
//! value is named below as a function of that text and key path.
use vstd::prelude::*;

verus! {

#[verifier::external_type_specification]
#[verifier::external_body]
pub struct ExJsonValue(serde_json::Value);

#[verifier::external_type_specification]
#[verifier::external_body]
pub struct ExJsonError(serde_json::Error);

/// Whether `serde_json::from_str::<serde_json::Value>` accepts `text` as a JSON document.
pub uninterp spec fn json_accepts(text: Seq<char>) -> bool;

/// Whether `serde_json::Value::get(key)` finds a member `key` in the value that the
/// member keys `path` lead to in the document parsed from `text`.
pub uninterp spec fn json_has_member(text: Seq<char>, path: Seq<Seq<char>>, key: Seq<char>) -> bool;

/// What `serde_json::Value::is_object` answers for the value at `path` in the document parsed from `text`.
pub uninterp spec fn json_is_object_at(text: Seq<char>, path: Seq<Seq<char>>) -> bool;

/// What `serde_json::Value::as_str` gives for the value at `path` in the document parsed from `text`.
pub uninterp spec fn json_string_at(text: Seq<char>, path: Seq<Seq<char>>) -> Option<Seq<char>>;

/// A value inside a parsed JSON document.
pub struct JsonNode {
    value: serde_json::Value,
    text: Ghost<Seq<char>>,
    path: Ghost<Seq<Seq<char>>>,
}

impl JsonNode {
    /// The text of the document that holds this value.
    pub closed spec fn text(&self) -> Seq<char> {
        self.text@
    }

    /// The member keys that lead from the document's root to this value.
    pub closed spec fn path(&self) -> Seq<Seq<char>> {
        self.path@
    }
}

/// Parses `text` with `serde_json::from_str::<serde_json::Value>`; `None` where
/// `serde_json` refuses the text. The contract claims that the answer is the one
/// named by [`json_accepts`] and that the node is the document's root.
#[verifier::external_body]
pub(crate) fn parse_json(text: &str) -> (r: Option<JsonNode>)
    ensures
        r is Some <==> json_accepts(text@),
        r matches Some(node) ==> node.text() == text@ && node.path() == Seq::<Seq<char>>::empty(),
{
    match serde_json::from_str::<serde_json::Value>(text) {
        Ok(value) => Some(JsonNode { value, text: Ghost(text@), path: Ghost(Seq::empty()) }),
        Err(_) => None,
    }
}

/// The member `key` of an object, by `serde_json::Value::get`; `None` where the
/// value is no object or has no such member. The contract claims the answer
/// named by [`json_has_member`], and that the member sits one key below the node.
#[verifier::external_body]
pub(crate) fn json_member(node: &JsonNode, key: &str) -> (r: Option<JsonNode>)
    ensures
        r is Some <==> json_has_member(node.text(), node.path(), key@),
        r matches Some(m) ==> m.text() == node.text() && m.path() == node.path().push(key@),
{
    match node.value.get(key) {
        Some(v) => Some(JsonNode { value: v.clone(), text: Ghost(node.text@), path: Ghost(node.path@.push(key@)) }),
        None => None,
    }
}

/// Whether the value is a JSON object, by `serde_json::Value::is_object`; the
/// contract claims the answer named by [`json_is_object_at`].
#[verifier::external_body]
pub(crate) fn json_is_object(node: &JsonNode) -> (r: bool)
    ensures
        r == json_is_object_at(node.text(), node.path()),
{
    node.value.is_object()
}

/// The string that the value holds, by `serde_json::Value::as_str`; `None` where
/// it is no JSON string. The contract claims the answer named by [`json_string_at`].
#[verifier::external_body]
pub(crate) fn json_as_string(node: &JsonNode) -> (r: Option<String>)
    ensures
        crate::text::opt_text(r) == json_string_at(node.text(), node.path()),
{
    match node.value.as_str() {
        Some(s) => Some(s.to_string()),
        None => None,
    }
}

} // verus!
