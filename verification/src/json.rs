//! The JSON values that messages are read from and written to.
//!
//! Text is parsed and printed by `serde_json`. What a value holds is described
//! by [`JsonTree`]. Every executable function in this module is a thin typed
//! door to one `serde_json` operation; its contract is stated over that tree
//! and is trusted, not proved.

use vstd::prelude::*;

verus! {

/// A JSON number, in the three forms that `serde_json` keeps apart.
pub enum JsonNumber {
    /// A whole number from zero up.
    Unsigned(u64),
    /// A whole number below zero.
    Negative(i64),
    /// Any other number, told apart by the bit pattern of its binary64 form.
    Real(u64),
}

/// The mathematical content of a JSON value.
pub enum JsonTree {
    Null,
    Bool(bool),
    Number(JsonNumber),
    Text(Seq<char>),
    Array(Seq<JsonTree>),
    Object(Map<Seq<char>, JsonTree>),
}

/// `serde_json::Value`, of which only `value_tree` is known.
#[verifier::external_type_specification]
#[verifier::external_body]
pub struct ExValue(serde_json::Value);

/// `serde_json::Error`, of which nothing is known.
#[verifier::external_type_specification]
#[verifier::external_body]
pub struct ExError(serde_json::Error);

/// `serde_json::Map`, of which only `map_members` is known.
#[verifier::external_type_specification]
#[verifier::external_body]
#[verifier::reject_recursive_types(K)]
#[verifier::reject_recursive_types(V)]
pub struct ExMap<K, V>(serde_json::Map<K, V>);

/// The tree that a `serde_json::Value` holds.
pub uninterp spec fn value_tree(v: serde_json::Value) -> JsonTree;

/// The members that a `serde_json::Map` holds, by key.
pub uninterp spec fn map_members(m: serde_json::Map<String, serde_json::Value>) -> Map<
    Seq<char>,
    JsonTree,
>;

/// The tree that `serde_json::from_slice` reads from `bytes`, or `None` where
/// it reports an error.
pub uninterp spec fn parsed_tree(bytes: Seq<u8>) -> Option<JsonTree>;

/// The compact JSON text that `serde_json::to_vec` writes for a tree.
pub uninterp spec fn printed_tree(tree: JsonTree) -> Seq<u8>;

/// The trees of a sequence of values, in order.
pub open spec fn value_trees(items: Seq<serde_json::Value>) -> Seq<JsonTree> {
    items.map_values(|v: serde_json::Value| value_tree(v))
}

/// `serde_json::from_slice` at type `Value`. It either reads the whole input
/// as one JSON text and returns its value, or returns an error; which of the
/// two, and the tree read, depend on the bytes alone.
#[verifier::external_body]
pub(crate) fn parse_value(bytes: &[u8]) -> (r: Result<serde_json::Value, serde_json::Error>)
    ensures
        match r {
            Ok(v) => parsed_tree(bytes@) == Some(value_tree(v)),
            Err(_) => parsed_tree(bytes@) is None,
        },
{
    serde_json::from_slice::<serde_json::Value>(bytes)
}

/// `serde_json::to_vec` at type `Value`. Its documentation names two causes
/// of failure, a `Serialize` impl that gives up and a map whose keys are not
/// strings; a `Value` has neither, so the call succeeds, and the text written
/// depends on the tree alone.
#[verifier::external_body]
pub(crate) fn print_value(v: &serde_json::Value) -> (r: Result<Vec<u8>, serde_json::Error>)
    ensures
        match r {
            Ok(text) => text@ == printed_tree(value_tree(*v)),
            Err(_) => false,
        },
{
    serde_json::to_vec(v)
}

/// `Value::is_null`: whether the value is `null`.
#[verifier::external_body]
pub(crate) fn value_is_null(v: &serde_json::Value) -> (r: bool)
    ensures
        r == (value_tree(*v) is Null),
{
    v.is_null()
}

/// `Value::as_bool`: the truth value of a boolean, `None` for anything else.
#[verifier::external_body]
pub(crate) fn value_as_bool(v: &serde_json::Value) -> (r: Option<bool>)
    ensures
        match r {
            Some(b) => value_tree(*v) == JsonTree::Bool(b),
            None => !(value_tree(*v) is Bool),
        },
{
    v.as_bool()
}

/// `Value::as_u64`: the number, where it is a whole number from zero up, and
/// `None` for a negative or fractional number or anything else.
#[verifier::external_body]
pub(crate) fn value_as_u64(v: &serde_json::Value) -> (r: Option<u64>)
    ensures
        match r {
            Some(n) => value_tree(*v) == JsonTree::Number(JsonNumber::Unsigned(n)),
            None => !(value_tree(*v) matches JsonTree::Number(JsonNumber::Unsigned(_))),
        },
{
    v.as_u64()
}

/// `Value::as_str`: the text of a string, `None` for anything else.
#[verifier::external_body]
pub(crate) fn value_as_str(v: &serde_json::Value) -> (r: Option<&str>)
    ensures
        match r {
            Some(s) => value_tree(*v) == JsonTree::Text(s@),
            None => !(value_tree(*v) is Text),
        },
{
    v.as_str()
}

/// `Value::as_array`: the items of an array, `None` for anything else.
#[verifier::external_body]
pub(crate) fn value_as_array(v: &serde_json::Value) -> (r: Option<&Vec<serde_json::Value>>)
    ensures
        match r {
            Some(items) => value_tree(*v) == JsonTree::Array(value_trees(items@)),
            None => !(value_tree(*v) is Array),
        },
{
    v.as_array()
}

/// `Value::as_object`: the map of an object, `None` for anything else.
#[verifier::external_body]
pub(crate) fn value_as_object(v: &serde_json::Value) -> (r: Option<
    &serde_json::Map<String, serde_json::Value>,
>)
    ensures
        match r {
            Some(m) => value_tree(*v) == JsonTree::Object(map_members(*m)),
            None => !(value_tree(*v) is Object),
        },
{
    v.as_object()
}

/// Whether `members` has exactly `count` keys, and no more than finitely many.
pub open spec fn has_count(members: Map<Seq<char>, JsonTree>, count: nat) -> bool {
    members.dom().finite() && members.dom().len() == count
}

/// `Map::len`: the number of members.
#[verifier::external_body]
pub(crate) fn map_len(m: &serde_json::Map<String, serde_json::Value>) -> (r: usize)
    ensures
        has_count(map_members(*m), r as nat),
{
    m.len()
}

/// `Map::get` with a string key: the member under that key, if there is one.
#[verifier::external_body]
pub(crate) fn map_get<'a>(m: &'a serde_json::Map<String, serde_json::Value>, key: &str) -> (r:
    Option<&'a serde_json::Value>)
    ensures
        match r {
            Some(v) => map_members(*m).contains_key(key@) && map_members(*m)[key@] == value_tree(
                *v,
            ),
            None => !map_members(*m).contains_key(key@),
        },
{
    m.get(key)
}

/// The members of an object without any.
pub open spec fn no_members() -> Map<Seq<char>, JsonTree> {
    Map::empty()
}

/// `Map::new`: a map without members.
#[verifier::external_body]
pub(crate) fn map_new() -> (r: serde_json::Map<String, serde_json::Value>)
    ensures
        map_members(r) == no_members(),
{
    serde_json::Map::new()
}

/// `Map::insert`: puts the value under the key, in place of any value that
/// was there, which is returned.
#[verifier::external_body]
pub(crate) fn map_insert(
    m: &mut serde_json::Map<String, serde_json::Value>,
    key: String,
    value: serde_json::Value,
) -> (r: Option<serde_json::Value>)
    ensures
        map_members(*final(m)) == map_members(*old(m)).insert(key@, value_tree(value)),
        match r {
            Some(previous) => map_members(*old(m)).contains_key(key@) && map_members(*old(m))[key@]
                == value_tree(previous),
            None => !map_members(*old(m)).contains_key(key@),
        },
{
    m.insert(key, value)
}

/// `Value::from` for `bool`: the boolean value.
#[verifier::external_body]
pub(crate) fn bool_value(b: bool) -> (r: serde_json::Value)
    ensures
        value_tree(r) == JsonTree::Bool(b),
{
    serde_json::Value::from(b)
}

/// `Value::from` for `u64`: the number value, kept as a whole number.
#[verifier::external_body]
pub(crate) fn number_value(n: u64) -> (r: serde_json::Value)
    ensures
        value_tree(r) == JsonTree::Number(JsonNumber::Unsigned(n)),
{
    serde_json::Value::from(n)
}

/// `Value::from` for `String`: the string value.
#[verifier::external_body]
pub(crate) fn text_value(s: String) -> (r: serde_json::Value)
    ensures
        value_tree(r) == JsonTree::Text(s@),
{
    serde_json::Value::from(s)
}

/// `Value::from` for a `Vec` of values: the array of them, in order.
#[verifier::external_body]
pub(crate) fn array_value(items: Vec<serde_json::Value>) -> (r: serde_json::Value)
    ensures
        value_tree(r) == JsonTree::Array(value_trees(items@)),
{
    serde_json::Value::from(items)
}

/// `Value::from` for a `Map`: the object with the map's members.
#[verifier::external_body]
pub(crate) fn object_value(m: serde_json::Map<String, serde_json::Value>) -> (r: serde_json::Value)
    ensures
        value_tree(r) == JsonTree::Object(map_members(m)),
{
    serde_json::Value::from(m)
}

} // verus!
