//! JSON documents as `serde_json` holds them, and the mathematical model the
//! rest of the crate reasons about.
//!
//! A `serde_json::Value` is opaque to the verifier. Its content is named by
//! [`value_model`], and every item in this file that touches a `Value` states,
//! without proof, what `serde_json` does to that content.

use vstd::prelude::*;

verus! {

/// `serde_json::Value`, carried as an opaque type.
#[verifier::external_type_specification]
#[verifier::external_body]
pub struct ExValue(serde_json::Value);

/// `serde_json::Map`, carried as an opaque type.
#[verifier::external_type_specification]
#[verifier::external_body]
#[verifier::reject_recursive_types(K)]
#[verifier::reject_recursive_types(V)]
pub struct ExMap<K, V>(serde_json::Map<K, V>);

/// `serde_json::Number`, carried as an opaque type.
#[verifier::external_type_specification]
#[verifier::external_body]
pub struct ExNumber(serde_json::Number);

/// `serde_json::Error`, carried as an opaque type.
#[verifier::external_type_specification]
#[verifier::external_body]
pub struct ExError(serde_json::Error);

/// The members of a JSON object as `serde_json` stores them.
pub type Object = serde_json::Map<String, serde_json::Value>;

/// A JSON number: either a non-negative integer that fits in 64 bits, or any
/// other number, which is kept as `serde_json` holds it.
pub enum JsonNumber {
    Unsigned(u64),
    Other(serde_json::Number),
}

/// The mathematical content of a JSON document.
pub enum JsonValue {
    Null,
    Bool(bool),
    Number(JsonNumber),
    String(Seq<char>),
    Array(Seq<JsonValue>),
    Object(Map<Seq<char>, JsonValue>),
}

/// The members of a JSON object, by key.
pub type Members = Map<Seq<char>, JsonValue>;

/// The content of a `serde_json::Value`.
pub uninterp spec fn value_model(v: serde_json::Value) -> JsonValue;

/// The content of a `serde_json::Map`.
pub uninterp spec fn map_model(m: Object) -> Map<Seq<char>, JsonValue>;

/// The content of a `serde_json::Number`.
pub uninterp spec fn number_model(n: serde_json::Number) -> JsonNumber;

/// The text that `serde_json::to_string` produces for a document, where it
/// produces one.
pub uninterp spec fn rendered_text(doc: JsonValue) -> Option<Seq<char>>;

/// The document that `serde_json::from_str` reads from a text, where it reads
/// one.
pub uninterp spec fn parsed_text(text: Seq<char>) -> Option<JsonValue>;

/// An object without members.
pub open spec fn no_members() -> Members {
    Map::empty()
}

/// The contents of a sequence of values, element by element.
pub open spec fn value_models(items: Seq<serde_json::Value>) -> Seq<JsonValue> {
    items.map_values(|v: serde_json::Value| value_model(v))
}

impl JsonValue {
    /// The member stored under `key`, if this is an object that has one.
    pub open spec fn member(self, key: Seq<char>) -> Option<JsonValue> {
        match self {
            JsonValue::Object(members) => if members.dom().contains(key) {
                Some(members[key])
            } else {
                None
            },
            _ => None,
        }
    }
}

/// `serde_json::from_str` at type `Value`: the result is a function of the
/// text alone, named by [`parsed_text`]. Nothing is claimed about which
/// texts parse.
#[verifier::external_body]
pub(crate) fn parse(text: &str) -> (r: Result<serde_json::Value, serde_json::Error>)
    ensures
        r is Ok <==> parsed_text(text@) is Some,
        r matches Ok(v) ==> parsed_text(text@) == Some(value_model(v)),
{
    serde_json::from_str::<serde_json::Value>(text)
}

/// `serde_json::to_string` on a `Value`: the result is a function of the
/// document's content alone, named by [`rendered_text`]. Nothing is claimed
/// about which documents render.
#[verifier::external_body]
pub(crate) fn render(v: &serde_json::Value) -> (r: Result<String, serde_json::Error>)
    ensures
        r is Ok <==> rendered_text(value_model(*v)) is Some,
        r matches Ok(text) ==> rendered_text(value_model(*v)) == Some(text@),
{
    serde_json::to_string(v)
}

/// `Value::get` with a string index: the member under `key` when the value is
/// an object that has it, nothing otherwise. An object has finitely many
/// members.
#[verifier::external_body]
pub(crate) fn member<'a>(v: &'a serde_json::Value, key: &str) -> (r: Option<&'a serde_json::Value>)
    ensures
        r is Some <==> value_model(*v).member(key@) is Some,
        r matches Some(found) ==> value_model(*v).member(key@) == Some(value_model(*found)),
        r is Some ==> value_model(*v)->Object_0.dom().finite(),
{
    v.get(key)
}

/// `Map::get` with a string key: the member under `key` when the map has it,
/// nothing otherwise. A map has finitely many members.
#[verifier::external_body]
pub(crate) fn map_member<'a>(members: &'a Object, key: &str) -> (r: Option<&'a serde_json::Value>)
    ensures
        r is Some <==> map_model(*members).dom().contains(key@),
        r matches Some(found) ==> map_model(*members)[key@] == value_model(*found),
        r is Some ==> map_model(*members).dom().finite(),
{
    members.get(key)
}

/// `Value::as_str`: the text of a string value, nothing for any other value.
pub assume_specification<'a>[ serde_json::Value::as_str ](v: &'a serde_json::Value) -> (r: Option<&'a str>)
    ensures
        r matches Some(text) ==> value_model(*v) == JsonValue::String(text@),
        r is None ==> !(value_model(*v) is String),
;

/// `Value::as_u64`: the integer of a number that is a non-negative integer
/// below 2^64, nothing for any other value.
pub assume_specification[ serde_json::Value::as_u64 ](v: &serde_json::Value) -> (r: Option<u64>)
    ensures
        r == (match value_model(*v) {
            JsonValue::Number(JsonNumber::Unsigned(n)) => Some(n),
            _ => None,
        }),
;

/// `Value::as_bool`: the flag of a boolean value, nothing for any other value.
pub assume_specification[ serde_json::Value::as_bool ](v: &serde_json::Value) -> (r: Option<bool>)
    ensures
        r == (match value_model(*v) {
            JsonValue::Bool(b) => Some(b),
            _ => None,
        }),
;

/// `Value::as_array`: the elements of an array value, nothing for any other
/// value.
pub assume_specification<'a>[ serde_json::Value::as_array ](v: &'a serde_json::Value) -> (r: Option<&'a Vec<serde_json::Value>>)
    ensures
        r matches Some(items) ==> value_model(*v) == JsonValue::Array(value_models(items@)),
        r is None ==> !(value_model(*v) is Array),
;

/// `Value::as_number`: the number of a number value, nothing for any other
/// value.
pub assume_specification<'a>[ serde_json::Value::as_number ](v: &'a serde_json::Value) -> (r: Option<&'a serde_json::Number>)
    ensures
        r matches Some(n) ==> value_model(*v) == JsonValue::Number(number_model(*n)),
        r is None ==> !(value_model(*v) is Number),
;

/// `Value::as_object`: the members of an object value, nothing for any other
/// value.
pub assume_specification<'a>[ serde_json::Value::as_object ](v: &'a serde_json::Value) -> (r: Option<&'a serde_json::Map<String, serde_json::Value>>)
    ensures
        r matches Some(members) ==> value_model(*v) == JsonValue::Object(map_model(*members)),
        r is None ==> !(value_model(*v) is Object),
;

/// `Value::is_null`: whether the value is JSON `null`.
pub assume_specification[ serde_json::Value::is_null ](v: &serde_json::Value) -> (r: bool)
    ensures
        r == (value_model(*v) is Null),
;

/// `Number::clone`: the copy holds the number that was copied.
#[verifier::external_body]
pub(crate) fn copy_number(n: &serde_json::Number) -> (r: serde_json::Number)
    ensures
        number_model(r) == number_model(*n),
{
    n.clone()
}

/// `Map::clone`: the copy holds the members of the map that was copied.
#[verifier::external_body]
pub(crate) fn copy_object(members: &Object) -> (r: Object)
    ensures
        map_model(r) == map_model(*members),
{
    members.clone()
}

/// `Value::String`: a string value with the given text.
#[verifier::external_body]
pub(crate) fn text_value(text: &str) -> (v: serde_json::Value)
    ensures
        value_model(v) == JsonValue::String(text@),
{
    serde_json::Value::String(text.to_owned())
}

/// `Value::from` at `u64`: a number value holding the given integer.
#[verifier::external_body]
pub(crate) fn unsigned_value(n: u64) -> (v: serde_json::Value)
    ensures
        value_model(v) == JsonValue::Number(JsonNumber::Unsigned(n)),
{
    serde_json::Value::from(n)
}

/// `Value::Bool`: a boolean value holding the given flag.
#[verifier::external_body]
pub(crate) fn flag_value(b: bool) -> (v: serde_json::Value)
    ensures
        value_model(v) == JsonValue::Bool(b),
{
    serde_json::Value::Bool(b)
}

/// `Value::Number`: a number value holding the given number.
#[verifier::external_body]
pub(crate) fn number_value(n: serde_json::Number) -> (v: serde_json::Value)
    ensures
        value_model(v) == JsonValue::Number(number_model(n)),
{
    serde_json::Value::Number(n)
}

/// `Value::Array`: an array value holding the given elements in order.
#[verifier::external_body]
pub(crate) fn array_value(items: Vec<serde_json::Value>) -> (v: serde_json::Value)
    ensures
        value_model(v) == JsonValue::Array(value_models(items@)),
{
    serde_json::Value::Array(items)
}

/// `Value::Object`: an object value holding the given members.
#[verifier::external_body]
pub(crate) fn object_value(members: Object) -> (v: serde_json::Value)
    ensures
        value_model(v) == JsonValue::Object(map_model(members)),
{
    serde_json::Value::Object(members)
}

/// `Map::new`: a map without members.
#[verifier::external_body]
pub(crate) fn new_object() -> (members: Object)
    ensures
        map_model(members) == no_members(),
{
    serde_json::Map::new()
}

/// `Map::insert`: afterwards the map holds `v` under `key`, replacing what
/// was stored there, and every other member is as before.
#[verifier::external_body]
pub(crate) fn set_member(members: &mut Object, key: &str, v: serde_json::Value)
    ensures
        map_model(*final(members)) == map_model(*old(members)).insert(key@, value_model(v)),
{
    members.insert(key.to_owned(), v);
}

/// `str`'s `==`: whether two texts hold the same characters.
#[verifier::external_body]
pub(crate) fn same_text(a: &str, b: &str) -> (r: bool)
    ensures
        r == (a@ == b@),
{
    a == b
}

} // verus!
