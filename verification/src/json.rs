//! JSON as `serde_json` reads and writes it. Nothing in this file is proved:
//! it states what the library takes on trust from that crate, over a model
//! of what a JSON value holds.

use vstd::prelude::*;

verus! {

#[verifier::external_type_specification]
#[verifier::external_body]
pub struct ExValue(serde_json::Value);

/// What a JSON value holds. Of a number only that it is one.
pub enum JsonTree {
    Null,
    Bool(bool),
    Number,
    Text(Seq<char>),
    List(Seq<JsonTree>),
    Object(Map<Seq<char>, JsonTree>),
}

/// What the value holds.
pub uninterp spec fn json_tree(value: serde_json::Value) -> JsonTree;

/// What `serde_json::from_str` makes of the text: the value it reads, or
/// nothing where the text is not one JSON value.
pub uninterp spec fn json_parse(text: Seq<char>) -> Option<JsonTree>;

/// The text as `serde_json` writes a JSON string: between double quotes, and
/// escaped.
pub uninterp spec fn json_quoted(text: Seq<char>) -> Seq<char>;

/// The entry of an object under the key; nothing where there is no such
/// entry or the value is no object.
pub open spec fn member_of(tree: JsonTree, key: Seq<char>) -> Option<JsonTree> {
    match tree {
        JsonTree::Object(entries) => if entries.contains_key(key) {
            Some(entries[key])
        } else {
            None
        },
        _ => None,
    }
}

/// The element of a list at the index; nothing where the list is shorter or
/// the value is no list.
pub open spec fn element_of(tree: JsonTree, index: int) -> Option<JsonTree> {
    match tree {
        JsonTree::List(elements) => if 0 <= index < elements.len() {
            Some(elements[index])
        } else {
            None
        },
        _ => None,
    }
}

/// The text of a JSON string; nothing where the value is no string.
pub open spec fn text_of(tree: JsonTree) -> Option<Seq<char>> {
    match tree {
        JsonTree::Text(text) => Some(text),
        _ => None,
    }
}

/// Whether the value is an object without entries.
pub open spec fn is_empty_object(tree: JsonTree) -> bool {
    tree matches JsonTree::Object(entries) && forall|key: Seq<char>| !entries.contains_key(key)
}

/// `serde_json::from_str` at the type `serde_json::Value`: the value that
/// the text spells, or nothing where the crate reports an error. The same
/// text always gives the same outcome.
#[verifier::external_body]
pub(crate) fn parse(text: &str) -> (parsed: Option<serde_json::Value>)
    ensures
        match parsed {
            Some(value) => json_parse(text@) == Some(json_tree(value)),
            None => json_parse(text@) is None,
        },
{
    serde_json::from_str::<serde_json::Value>(text).ok()
}

/// `serde_json::Value::get` with a string: the entry of an object under that
/// key, and nothing for a missing key or a value that is no object.
#[verifier::external_body]
pub(crate) fn member<'a>(value: &'a serde_json::Value, key: &str) -> (found: Option<
    &'a serde_json::Value,
>)
    ensures
        match found {
            Some(entry) => member_of(json_tree(*value), key@) == Some(json_tree(*entry)),
            None => member_of(json_tree(*value), key@) is None,
        },
{
    value.get(key)
}

/// `serde_json::Value::get` with a number: the element of an array at that
/// index, and nothing for an index past its end or a value that is no array.
#[verifier::external_body]
pub(crate) fn element<'a>(value: &'a serde_json::Value, index: usize) -> (found: Option<
    &'a serde_json::Value,
>)
    ensures
        match found {
            Some(entry) => element_of(json_tree(*value), index as int) == Some(json_tree(*entry)),
            None => element_of(json_tree(*value), index as int) is None,
        },
{
    value.get(index)
}

/// `serde_json::Value::as_str`: the text of a JSON string, and nothing for
/// any other value.
#[verifier::external_body]
pub(crate) fn text<'a>(value: &'a serde_json::Value) -> (found: Option<&'a str>)
    ensures
        match found {
            Some(text) => text_of(json_tree(*value)) == Some(text@),
            None => text_of(json_tree(*value)) is None,
        },
{
    value.as_str()
}

/// `serde_json::Value::as_object` and then `serde_json::Map::is_empty`:
/// whether the value is an object that holds no entry.
#[verifier::external_body]
pub(crate) fn holds_no_entry(value: &serde_json::Value) -> (empty: bool)
    ensures
        empty == is_empty_object(json_tree(*value)),
{
    value.as_object().is_some_and(|entries| entries.is_empty())
}

/// `to_string` of a `serde_json::Value::String`, which writes the text as a
/// JSON string on one line. The same text always gives the same result.
#[verifier::external_body]
pub(crate) fn quoted(text: &str) -> (written: String)
    ensures
        written@ == json_quoted(text@),
{
    serde_json::Value::String(text.to_owned()).to_string()
}

} // verus!
