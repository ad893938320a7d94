//! A mathematical model of JSON documents and the verified interface to the
//! `serde_json` values that the reports are made of.

use vstd::prelude::*;

verus! {

/// The mathematical content of a JSON document.
pub enum Json {
    Null,
    Bool(bool),
    /// A non-negative integer number.
    Unsigned(u64),
    /// A negative integer number.
    Negative(i64),
    /// A number with a fractional part or an exponent, by its IEEE-754 bits.
    Real(u64),
    Text(Seq<char>),
    List(Seq<Json>),
    Object(Map<Seq<char>, Json>),
}

/// `serde_json::Value`, a JSON value. It is opaque here: all that is known
/// of one is the document that it holds.
#[verifier::external_type_specification]
#[verifier::external_body]
pub struct ExValue(serde_json::Value);

/// `serde_json::Map`, the members of a JSON object. It is opaque here: all
/// that is known of one is the members that it holds.
#[verifier::external_type_specification]
#[verifier::external_body]
#[verifier::reject_recursive_types(K)]
#[verifier::reject_recursive_types(V)]
pub struct ExObject<K, V>(serde_json::Map<K, V>);

/// A JSON object under construction.
pub type Object = serde_json::Map<String, serde_json::Value>;

/// The document that a `serde_json::Value` holds.
pub uninterp spec fn document(value: serde_json::Value) -> Json;

/// The members that a `serde_json::Map` holds, by key.
pub uninterp spec fn members(object: Object) -> Map<Seq<char>, Json>;

/// `Value::from` applied to a `u64`: the result is the number `n`, held as a
/// non-negative integer.
#[verifier::external_body]
pub(crate) fn unsigned_value(n: u64) -> (value: serde_json::Value)
    ensures
        document(value) == Json::Unsigned(n),
{
    serde_json::Value::from(n)
}

/// `Value::String`: the result is the string with the characters of `text`.
#[verifier::external_body]
pub(crate) fn text_value(text: String) -> (value: serde_json::Value)
    ensures
        document(value) == Json::Text(text@),
{
    serde_json::Value::String(text)
}

/// `Value::Array`: the result is the array of the documents of `items`, in
/// their order.
#[verifier::external_body]
pub(crate) fn list_value(items: Vec<serde_json::Value>) -> (value: serde_json::Value)
    ensures
        document(value) == Json::List(documents(items@)),
{
    serde_json::Value::Array(items)
}

/// `Value::Object`: the result is the object with the members of `object`.
#[verifier::external_body]
pub(crate) fn object_value(object: Object) -> (value: serde_json::Value)
    ensures
        document(value) == Json::Object(members(object)),
{
    serde_json::Value::Object(object)
}

/// `Map::new`: the result has no members.
#[verifier::external_body]
pub(crate) fn new_object() -> (object: Object)
    ensures
        members(object) == no_members(),
{
    serde_json::Map::new()
}

/// `Map::insert`: afterwards `key` maps to the document of `value`, in place
/// of an earlier member under that key, and every other member is as before.
#[verifier::external_body]
pub(crate) fn object_insert(object: &mut Object, key: &str, value: serde_json::Value)
    ensures
        members(*final(object)) == members(*old(object)).insert(key@, document(value)),
{
    object.insert(key.to_owned(), value);
}

/// The members of an object that has none.
pub open spec fn no_members() -> Map<Seq<char>, Json> {
    Map::empty()
}

/// The documents of a sequence of values, element by element.
pub open spec fn documents(values: Seq<serde_json::Value>) -> Seq<Json> {
    values.map_values(|value: serde_json::Value| document(value))
}

/// The documents of a sequence with one more value are those of the
/// sequence with the document of that value after them.
pub proof fn lemma_documents_push(values: Seq<serde_json::Value>, value: serde_json::Value)
    ensures
        documents(values.push(value)) == documents(values).push(document(value)),
{
    assert(documents(values.push(value)) =~= documents(values).push(document(value)));
}

} // verus!
