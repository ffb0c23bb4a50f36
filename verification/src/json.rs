use vstd::prelude::*;

verus! {

/// A JSON document as the contracts see it: what a `serde_json::Value`
/// holds.
pub enum Json {
    Null,
    Bool(bool),
    /// A number held as an integer.
    Integer(int),
    /// A number held as a float, by the bits of the float.
    Float(int),
    Text(Seq<char>),
    Array(Seq<Json>),
    Object(Map<Seq<char>, Json>),
}

/// `serde_json::Value`, carried through as it is: nothing is known of a
/// value but what `json_tree` says it holds.
#[verifier::external_type_specification]
#[verifier::external_body]
pub struct ExValue(serde_json::Value);

/// What a `serde_json::Value` holds.
pub uninterp spec fn json_tree(value: serde_json::Value) -> Json;

/// What `serde_json::from_str` reads from a text: the document, or `None`
/// where it reports an error.
pub uninterp spec fn json_parse(text: Seq<char>) -> Option<Json>;

/// The compact text that `serde_json` writes for a document.
pub uninterp spec fn json_text(tree: Json) -> Seq<char>;

/// What indexing a document with a key gives: the member under that key
/// where the document is an object that has one, else null.
pub open spec fn member(tree: Json, key: Seq<char>) -> Json {
    match tree {
        Json::Object(fields) => if fields.contains_key(key) {
            fields[key]
        } else {
            Json::Null
        },
        _ => Json::Null,
    }
}

/// The members of an object built from pairs of key and value.
pub open spec fn object_of(pairs: Seq<(Seq<char>, Json)>) -> Map<Seq<char>, Json>
    decreases pairs.len(),
{
    if pairs.len() == 0 {
        Map::empty()
    } else {
        object_of(pairs.drop_last()).insert(pairs.last().0, pairs.last().1)
    }
}

/// The pairs of key and value in `fields`, as the contracts see them.
pub open spec fn pairs_of(fields: Seq<(String, serde_json::Value)>) -> Seq<(Seq<char>, Json)> {
    Seq::new(fields.len(), |i: int| (fields[i].0@, json_tree(fields[i].1)))
}

/// `serde_json::from_str` for a `Value`. It reads `text` as one JSON
/// document; the outcome depends on the text alone. An error becomes
/// `None`.
#[verifier::external_body]
pub(crate) fn parse(text: &str) -> (r: Option<serde_json::Value>)
    ensures
        r matches Some(value) ==> json_parse(text@) == Some(json_tree(value)),
        r is None ==> json_parse(text@) is None,
{
    serde_json::from_str::<serde_json::Value>(text).ok()
}

/// Indexing of a `serde_json::Value` by a string key. It gives the member
/// under `key` where the value is an object that has one, and a null value
/// in every other case; it does not panic.
#[verifier::external_body]
pub(crate) fn get<'a>(value: &'a serde_json::Value, key: &str) -> (r: &'a serde_json::Value)
    ensures
        json_tree(*r) == member(json_tree(*value), key@),
{
    &value[key]
}

/// `serde_json::Value::is_null`: whether the value is null.
#[verifier::external_body]
pub(crate) fn is_null(value: &serde_json::Value) -> (r: bool)
    ensures
        r == (json_tree(*value) is Null),
{
    value.is_null()
}

/// `serde_json::Value::as_bool`: the boolean that the value is, or `None`
/// where it is anything else.
#[verifier::external_body]
pub(crate) fn as_bool(value: &serde_json::Value) -> (r: Option<bool>)
    ensures
        r == match json_tree(*value) {
            Json::Bool(b) => Some(b),
            _ => None,
        },
{
    value.as_bool()
}

/// `serde_json::Value::String`: the value that is the string `text`.
#[verifier::external_body]
pub(crate) fn string(text: String) -> (r: serde_json::Value)
    ensures
        json_tree(r) == Json::Text(text@),
{
    serde_json::Value::String(text)
}

/// `serde_json::Value::from` for an `i32`: the value that is the number
/// `n`, held as an integer.
#[verifier::external_body]
pub(crate) fn integer(n: i32) -> (r: serde_json::Value)
    ensures
        json_tree(r) == Json::Integer(n as int),
{
    serde_json::Value::from(n)
}

/// Whether no two of the pairs have the same key.
pub open spec fn distinct_keys(pairs: Seq<(Seq<char>, Json)>) -> bool {
    forall|i: int, j: int| 0 <= i < j < pairs.len() ==> pairs[i].0 != pairs[j].0
}

/// `serde_json::Value::from_iter` for pairs of key and value: the object
/// that has one member for each pair. Which of two pairs with the same key
/// would stay is left open by the map underneath, so no two pairs may have
/// the same key.
#[verifier::external_body]
pub(crate) fn object(fields: Vec<(String, serde_json::Value)>) -> (r: serde_json::Value)
    requires
        distinct_keys(pairs_of(fields@)),
    ensures
        json_tree(r) == Json::Object(object_of(pairs_of(fields@))),
{
    serde_json::Value::from_iter(fields)
}

/// `to_string` of a `serde_json::Value`: its compact text, which depends
/// on what the value holds alone (an object's members are written in the
/// order of their keys).
#[verifier::external_body]
pub(crate) fn text_of(value: &serde_json::Value) -> (r: String)
    ensures
        r@ == json_text(json_tree(*value)),
{
    value.to_string()
}

} // verus!
