//! The stored record that holds the key to the completion service.

use vstd::prelude::*;
use crate::json::{
    holds_no_entry, is_empty_object, json_parse, json_quoted, json_tree, member, member_of, parse,
    quoted, text, text_of, JsonTree,
};

verus! {

/// The name of the file that holds the record, in the directory for this
/// program's configuration.
pub const CONFIG_FILE_NAME: &'static str = "conf.json";

/// The field of the record that holds the key.
pub const API_KEY_FIELD: &'static str = "api_key";

/// A record up to the key.
pub const RECORD_OPENING: &'static str = "{\"api_key\":";

/// The end of a record.
pub const RECORD_CLOSING: &'static str = "}";

/// What a stored record says about the key.
#[derive(Debug, Clone, PartialEq, Eq)]
pub enum StoredKey {
    /// There is no record, or an empty one: the key has to be asked for.
    Missing,
    /// The record holds this key, which is not empty.
    Found(String),
    /// The record holds entries, but no key: none that is a string and not
    /// empty.
    Unusable,
}

/// What `StoredKey` stands for.
pub enum KeyInRecord {
    Missing,
    Found(Seq<char>),
    Unusable,
}

impl View for StoredKey {
    type V = KeyInRecord;

    open spec fn view(&self) -> KeyInRecord {
        match self {
            StoredKey::Missing => KeyInRecord::Missing,
            StoredKey::Found(key) => KeyInRecord::Found(key@),
            StoredKey::Unusable => KeyInRecord::Unusable,
        }
    }
}

/// What a record says about the key. The empty object is an empty record;
/// any other value is a record that is kept as it is, and has to hold the
/// key under `api_key`, as a string that is not empty.
pub open spec fn key_in_tree(record: JsonTree) -> KeyInRecord {
    if is_empty_object(record) {
        KeyInRecord::Missing
    } else {
        match member_of(record, API_KEY_FIELD@) {
            Some(entry) => match text_of(entry) {
                Some(key) => if key.len() > 0 {
                    KeyInRecord::Found(key)
                } else {
                    KeyInRecord::Unusable
                },
                None => KeyInRecord::Unusable,
            },
            None => KeyInRecord::Unusable,
        }
    }
}

/// What the stored text says about the key. No text, and a text that is not
/// JSON, count as an empty record.
pub open spec fn key_in_stored(stored: Option<Seq<char>>) -> KeyInRecord {
    match stored {
        Some(text) => match json_parse(text) {
            Some(record) => key_in_tree(record),
            None => KeyInRecord::Missing,
        },
        None => KeyInRecord::Missing,
    }
}

/// The text of an optional string.
pub open spec fn text_in(stored: Option<String>) -> Option<Seq<char>> {
    match stored {
        Some(text) => Some(text@),
        None => None,
    }
}

/// The text of the record that holds the key and nothing else: a JSON object
/// on one line.
pub open spec fn record_text(api_key: Seq<char>) -> Seq<char> {
    RECORD_OPENING@ + json_quoted(api_key) + RECORD_CLOSING@
}

/// Reads the key from a record.
pub fn key_in_record(record: &serde_json::Value) -> (found: StoredKey)
    ensures
        found@ == key_in_tree(json_tree(*record)),
{
    if holds_no_entry(record) {
        return StoredKey::Missing;
    }
    match member(record, API_KEY_FIELD) {
        Some(entry) => match text(entry) {
            Some(key) => if key.is_empty() {
                StoredKey::Unusable
            } else {
                StoredKey::Found(String::from_str(key))
            },
            None => StoredKey::Unusable,
        },
        None => StoredKey::Unusable,
    }
}

/// Reads the key from what is stored: the text of the file, or nothing where
/// there is no file or it cannot be read.
pub fn stored_key(stored: &Option<String>) -> (found: StoredKey)
    ensures
        found@ == key_in_stored(text_in(*stored)),
{
    match stored {
        Some(text) => match parse(text.as_str()) {
            Some(record) => key_in_record(&record),
            None => StoredKey::Missing,
        },
        None => StoredKey::Missing,
    }
}

/// Writes the record that holds the key and nothing else.
pub fn write_record(api_key: &str) -> (written: String)
    ensures
        written@ == record_text(api_key@),
{
    let mut written = String::from_str(RECORD_OPENING);
    written.append(quoted(api_key).as_str());
    written.append(RECORD_CLOSING);
    written
}

/// A key that is found is never empty.
pub proof fn lemma_found_key_is_not_empty(stored: Option<Seq<char>>)
    ensures
        key_in_stored(stored) matches KeyInRecord::Found(key) ==> key.len() > 0,
{
}

/// A stored text that is not JSON says what a missing file says.
pub proof fn lemma_unreadable_record_is_missing(text: Seq<char>)
    requires
        json_parse(text) is None,
    ensures
        key_in_stored(Some(text)) == key_in_stored(None),
{
}

/// A record that holds a string under `api_key` gives that key, whatever
/// else it holds, unless the string is empty.
pub proof fn lemma_record_with_key(record: JsonTree, key: Seq<char>)
    requires
        member_of(record, API_KEY_FIELD@) == Some(JsonTree::Text(key)),
        key.len() > 0,
    ensures
        key_in_tree(record) == KeyInRecord::Found(key),
{
}

} // verus!
