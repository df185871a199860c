//! The JSON layer under the wire protocol.
//!
//! Reading and writing JSON text is `serde_json`'s work. This module declares
//! the `serde_json` types that pass through the library, gives a mathematical
//! model of what a `serde_json::Value` holds, and wraps the handful of
//! `serde_json` calls that the codec makes. The executable functions of this
//! module are not proved: each states what the `serde_json` item that it
//! calls does.
//!
//! `serde_json` is built with `preserve_order`: the members of an object keep
//! the order in which they were inserted or read.
use vstd::prelude::*;

verus! {

#[verifier::external_type_specification]
#[verifier::external_body]
pub struct ExValue(serde_json::Value);

#[verifier::external_type_specification]
#[verifier::external_body]
pub struct ExNumber(serde_json::Number);

#[verifier::external_type_specification]
#[verifier::external_body]
pub struct ExJsonError(serde_json::Error);

/// The mathematical model of a JSON value: what `serde_json::Value` holds,
/// with the members of an object in the order in which they are written.
pub enum Tree {
    Null,
    Bool(bool),
    Number(serde_json::Number),
    Text(Seq<char>),
    Array(Seq<Tree>),
    Object(Seq<(Seq<char>, Tree)>),
}

/// The tree that a `serde_json::Value` holds. The members of an object stand
/// in the order in which its map walks them, each key once.
pub uninterp spec fn tree_of(value: serde_json::Value) -> Tree;

/// The tree that `serde_json::from_slice` reads from `bytes`, or `None` where
/// it reports an error.
pub uninterp spec fn parsed(bytes: Seq<u8>) -> Option<Tree>;

/// The text that `serde_json::to_vec` writes for a value that holds `tree`, or
/// `None` where it reports an error.
pub uninterp spec fn printed(tree: Tree) -> Option<Seq<u8>>;

/// The first member of `fields` under `key`.
pub open spec fn lookup(fields: Seq<(Seq<char>, Tree)>, key: Seq<char>) -> Option<Tree>
    decreases fields.len(),
{
    if fields.len() == 0 {
        None
    } else if fields[0].0 == key {
        Some(fields[0].1)
    } else {
        lookup(fields.drop_first(), key)
    }
}

/// The member of an object under `key`; `None` for a missing key and for
/// anything but an object.
pub open spec fn member(tree: Tree, key: Seq<char>) -> Option<Tree> {
    match tree {
        Tree::Object(fields) => lookup(fields, key),
        _ => None,
    }
}

/// `serde_json::from_slice::<Value>`: reads one JSON value from `bytes`. The
/// value it returns depends on the bytes alone; `parsed` names it.
#[verifier::external_body]
pub(crate) fn parse(bytes: &[u8]) -> (r: Result<serde_json::Value, serde_json::Error>)
    ensures
        match r {
            Ok(value) => parsed(bytes@) == Some(tree_of(value)),
            Err(_) => parsed(bytes@) is None,
        },
{
    serde_json::from_slice::<serde_json::Value>(bytes)
}

/// `serde_json::to_vec` on a `Value`: writes the value as compact JSON text.
/// The text depends on what the value holds alone; `printed` names it.
#[verifier::external_body]
pub(crate) fn print(value: &serde_json::Value) -> (r: Result<Vec<u8>, serde_json::Error>)
    ensures
        match r {
            Ok(bytes) => printed(tree_of(*value)) == Some(bytes@),
            Err(_) => printed(tree_of(*value)) is None,
        },
{
    serde_json::to_vec(value)
}

/// `Value::get` with a string key: the member of an object under that key,
/// `None` where the key is missing or the value is no object.
#[verifier::external_body]
pub(crate) fn member_of<'a>(value: &'a serde_json::Value, key: &str) -> (r: Option<
    &'a serde_json::Value,
>)
    ensures
        match r {
            Some(found) => member(tree_of(*value), key@) == Some(tree_of(*found)),
            None => member(tree_of(*value), key@) is None,
        },
{
    value.get(key)
}

/// `Value::as_str`: the text of a JSON string, `None` for any other value.
#[verifier::external_body]
pub(crate) fn text_of(value: &serde_json::Value) -> (r: Option<String>)
    ensures
        match r {
            Some(text) => tree_of(*value) == Tree::Text(text@),
            None => !(tree_of(*value) is Text),
        },
{
    value.as_str().map(str::to_owned)
}

/// `Value::as_number`: the number of a JSON number, `None` for any other
/// value.
#[verifier::external_body]
pub(crate) fn number_of(value: &serde_json::Value) -> (r: Option<serde_json::Number>)
    ensures
        match r {
            Some(number) => tree_of(*value) == Tree::Number(number),
            None => !(tree_of(*value) is Number),
        },
{
    value.as_number().cloned()
}

/// `Value::is_null`: whether the value is JSON's `null`.
#[verifier::external_body]
pub(crate) fn is_null(value: &serde_json::Value) -> (r: bool)
    ensures
        r == (tree_of(*value) is Null),
{
    value.is_null()
}

/// `Value::Null`, JSON's `null`.
#[verifier::external_body]
pub(crate) fn null_value() -> (r: serde_json::Value)
    ensures
        tree_of(r) == Tree::Null,
{
    serde_json::Value::Null
}

/// `Value::String`, a JSON string with the given text.
#[verifier::external_body]
pub(crate) fn text_value(text: &str) -> (r: serde_json::Value)
    ensures
        tree_of(r) == Tree::Text(text@),
{
    serde_json::Value::String(text.to_owned())
}

/// `Value::Number`, a JSON number that holds a copy of `number`.
#[verifier::external_body]
pub(crate) fn number_value(number: &serde_json::Number) -> (r: serde_json::Value)
    ensures
        tree_of(r) == Tree::Number(*number),
{
    serde_json::Value::Number(number.clone())
}

/// `Value::Object` over `Map::new`: a JSON object without members.
#[verifier::external_body]
pub(crate) fn empty_object() -> (r: serde_json::Value)
    ensures
        tree_of(r) == Tree::Object(Seq::empty()),
{
    serde_json::Value::Object(serde_json::Map::new())
}

/// `Map::insert` on the members of an object, for a key that the object does
/// not hold yet: the new member comes last and the others stay as they are.
/// (With a key that the object holds, `insert` would replace the member in
/// its place; `requires` leaves that out.)
#[verifier::external_body]
pub(crate) fn with_member(object: serde_json::Value, key: &str, value: serde_json::Value) -> (r:
    serde_json::Value)
    requires
        tree_of(object) is Object,
        member(tree_of(object), key@) is None,
    ensures
        tree_of(r) == Tree::Object(tree_of(object)->Object_0.push((key@, tree_of(value)))),
{
    let mut object = object;
    if let serde_json::Value::Object(members) = &mut object {
        members.insert(key.to_owned(), value);
    }
    object
}

/// `Number::clone`: a copy that holds the same number. The derived `Clone` of
/// `Spawned` copies its coordinates with it.
pub assume_specification[ <serde_json::Number as Clone>::clone ](
    number: &serde_json::Number,
) -> (r: serde_json::Number)
    ensures
        r == *number,
;

} // verus!
