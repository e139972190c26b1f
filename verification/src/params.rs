//! The parameters of a tool call: a JSON tree, read field by field.
//!
//! The tree itself is a `serde_json::Value`. What it holds is named by
//! [`json_of`]; the functions of `serde_json` that the guard relies on are
//! given contracts over that name, and everything else here is proved from them.

use vstd::prelude::*;
use serde_json::Value;
use crate::text::views;

verus! {

/// `serde_json::Value`, carried as it is: nothing here looks inside one but
/// through the readers below.
#[verifier::external_type_specification]
#[verifier::external_body]
pub struct ExValue(serde_json::Value);

/// A JSON tree. A number stands without its value: no rule reads one.
pub enum Json {
    Null,
    Bool(bool),
    Number,
    String(Seq<char>),
    Array(Seq<Json>),
    Object(Map<Seq<char>, Json>),
}

/// The tree that a `serde_json::Value` holds.
pub uninterp spec fn json_of(value: Value) -> Json;

/// The trees of a list of values, in order.
pub open spec fn trees(values: Seq<Value>) -> Seq<Json> {
    Seq::new(values.len(), |i: int| json_of(values[i]))
}

/// The member `key` of an object; `None` for a missing key and for anything but an object.
pub open spec fn field(tree: Json, key: Seq<char>) -> Option<Json> {
    match tree {
        Json::Object(members) => if members.contains_key(key) {
            Some(members[key])
        } else {
            None
        },
        _ => None,
    }
}

/// The characters of a JSON string; `None` for anything else.
pub open spec fn text_of(tree: Json) -> Option<Seq<char>> {
    match tree {
        Json::String(text) => Some(text),
        _ => None,
    }
}

/// The elements of a JSON array; `None` for anything else.
pub open spec fn items_of(tree: Json) -> Option<Seq<Json>> {
    match tree {
        Json::Array(items) => Some(items),
        _ => None,
    }
}

/// `serde_json::Value::get` with a string index: the member of that name when
/// the value is an object that has one, and `None` in every other case.
#[verifier::external_body]
pub(crate) fn member<'a>(value: &'a Value, key: &str) -> (found: Option<&'a Value>)
    ensures
        match found {
            Some(inner) => field(json_of(*value), key@) == Some(json_of(*inner)),
            None => field(json_of(*value), key@) is None,
        },
{
    value.get(key)
}

/// `serde_json::Value::as_str`: the text of a JSON string, and `None` for a
/// value of any other kind.
pub assume_specification[ serde_json::Value::as_str ](value: &Value) -> (text: Option<&str>)
    ensures
        match text {
            Some(chars) => text_of(json_of(*value)) == Some(chars@),
            None => text_of(json_of(*value)) is None,
        },
;

/// `serde_json::Value::as_array`: the elements of a JSON array, and `None` for
/// a value of any other kind.
pub assume_specification[ serde_json::Value::as_array ](value: &Value) -> (items: Option<
    &Vec<Value>,
>)
    ensures
        match items {
            Some(elements) => items_of(json_of(*value)) == Some(trees(elements@)),
            None => items_of(json_of(*value)) is None,
        },
;

/// `Clone::clone` of `serde_json::Value`: the copy holds the same tree.
pub assume_specification[ <serde_json::Value as Clone>::clone ](value: &Value) -> (copy: Value)
    ensures
        json_of(copy) == json_of(*value),
;

/// The text under `key`, where the tree is an object whose member `key` is a string.
pub open spec fn text_field(tree: Json, key: Seq<char>) -> Option<Seq<char>> {
    match field(tree, key) {
        Some(inner) => text_of(inner),
        None => None,
    }
}

/// Reads the string parameter `key`: present only where `params` is an object
/// whose member `key` is a JSON string.
pub fn str_param<'a>(params: &'a Value, key: &str) -> (text: Option<&'a str>)
    ensures
        match text {
            Some(chars) => text_field(json_of(*params), key@) == Some(chars@),
            None => text_field(json_of(*params), key@) is None,
        },
{
    match member(params, key) {
        Some(inner) => inner.as_str(),
        None => None,
    }
}

/// The elements under `key`, where the tree is an object whose member `key` is an array.
pub open spec fn list_field(tree: Json, key: Seq<char>) -> Option<Seq<Json>> {
    match field(tree, key) {
        Some(inner) => items_of(inner),
        None => None,
    }
}

/// Reads the array parameter `key`: present only where `params` is an object
/// whose member `key` is a JSON array.
pub fn list_param<'a>(params: &'a Value, key: &str) -> (items: Option<&'a Vec<Value>>)
    ensures
        match items {
            Some(elements) => list_field(json_of(*params), key@) == Some(trees(elements@)),
            None => list_field(json_of(*params), key@) is None,
        },
{
    match member(params, key) {
        Some(inner) => inner.as_array(),
        None => None,
    }
}

/// Whether every tree of a list is a JSON string.
pub open spec fn all_strings(items: Seq<Json>) -> bool {
    forall|i: int| 0 <= i < items.len() ==> text_of(#[trigger] items[i]) is Some
}

/// The texts of a list of JSON strings, in order.
pub open spec fn string_texts(items: Seq<Json>) -> Seq<Seq<char>> {
    Seq::new(items.len(), |i: int| text_of(items[i])->Some_0)
}

/// Reads a list of values as strings: their texts in order where every
/// element is a JSON string, and `None` where some element is not.
pub fn strings_of_list(items: &Vec<Value>) -> (texts: Option<Vec<String>>)
    ensures
        match texts {
            Some(texts) => all_strings(trees(items@)) && views(texts@) == string_texts(
                trees(items@),
            ),
            None => !all_strings(trees(items@)),
        },
{
    let mut texts: Vec<String> = Vec::new();
    let mut i: usize = 0;
    while i < items.len()
        invariant
            i <= items.len(),
            texts@.len() == i,
            forall|j: int|
                0 <= j < i ==> text_of(json_of(items@[j])) == Some(#[trigger] texts@[j]@),
        decreases items.len() - i,
    {
        match items[i].as_str() {
            Some(chars) => {
                texts.push(chars.to_string());
            },
            None => {
                assert(text_of(trees(items@)[i as int]) is None);
                return None;
            },
        }
        i += 1;
    }
    proof {
        assert forall|j: int| 0 <= j < trees(items@).len() implies text_of(
            #[trigger] trees(items@)[j],
        ) is Some by {
            assert(text_of(json_of(items@[j])) == Some(texts@[j]@));
        }
        assert(views(texts@) =~= string_texts(trees(items@)));
    }
    Some(texts)
}

} // verus!
