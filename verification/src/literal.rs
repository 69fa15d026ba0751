//! Values that travel as one fixed string each.

use vstd::prelude::*;
use crate::json::{value_model, text_value, JsonValue};

verus! {

/// What tells one wire literal from another: its length and its first eight
/// characters.
pub struct Outline {
    pub len: nat,
    pub head: (char, char, char, char),
    pub tail: (char, char, char, char),
}

/// The outline of a text.
pub open spec fn outline(text: Seq<char>) -> Outline {
    Outline {
        len: text.len(),
        head: (text[0], text[1], text[2], text[3]),
        tail: (text[4], text[5], text[6], text[7]),
    }
}

/// A closed set of values, each of which is written on the wire as a string
/// literal of its own.
pub trait Literal: Sized {
    /// The literal that stands for this value.
    spec fn literal(self) -> Seq<char>;

    /// No two values share a literal.
    proof fn lemma_literal_injective(a: Self, b: Self)
        ensures
            a.literal() == b.literal() ==> a == b,
    ;

    /// The literal that stands for this value.
    fn wire_name(&self) -> (r: &'static str)
        ensures
            r@ == self.literal(),
    ;

    /// The value that `text` stands for, if it stands for one.
    fn parse(text: &str) -> (r: Option<Self>)
        ensures
            r matches Some(t) ==> t.literal() == text@,
            r is None ==> forall|t: Self| t.literal() != text@,
    ;
}

/// The value that `text` stands for, if it stands for one.
pub open spec fn from_literal<T: Literal>(text: Seq<char>) -> Option<T> {
    if exists|t: T| t.literal() == text {
        Some(choose|t: T| t.literal() == text)
    } else {
        None
    }
}

/// A value is what its own literal stands for.
pub proof fn lemma_from_literal<T: Literal>(t: T)
    ensures
        from_literal::<T>(t.literal()) == Some(t),
{
    let found = choose|x: T| x.literal() == t.literal();
    T::lemma_literal_injective(found, t);
}

/// The document that holds a literal value: a JSON string.
pub open spec fn encode_literal<T: Literal>(t: T) -> JsonValue {
    JsonValue::String(t.literal())
}

/// The literal value that a document holds, if it is a JSON string that
/// stands for one.
pub open spec fn decode_literal<T: Literal>(doc: JsonValue) -> Option<T> {
    match doc {
        JsonValue::String(text) => from_literal::<T>(text),
        _ => None,
    }
}

/// Decoding the document of a literal value gives the value back.
pub broadcast proof fn lemma_literal_round_trip<T: Literal>(t: T)
    ensures
        #[trigger] decode_literal::<T>(encode_literal(t)) == Some(t),
{
    lemma_from_literal(t);
}

/// The document that holds a list of literal values: a JSON array of strings.
pub open spec fn encode_literals<T: Literal>(list: Seq<T>) -> JsonValue {
    JsonValue::Array(list.map_values(|t: T| encode_literal(t)))
}

/// The list of literal values that a document holds, if it is a JSON array of
/// strings that stand for one each.
pub open spec fn decode_literals<T: Literal>(doc: JsonValue) -> Option<Seq<T>> {
    match doc {
        JsonValue::Array(items) => if forall|i: int|
            0 <= i < items.len() ==> decode_literal::<T>(#[trigger] items[i]) is Some {
            Some(items.map_values(|item: JsonValue| decode_literal::<T>(item).unwrap()))
        } else {
            None
        },
        _ => None,
    }
}

/// Decoding the document of a list of literal values gives the list back.
pub broadcast proof fn lemma_literals_round_trip<T: Literal>(list: Seq<T>)
    ensures
        #[trigger] decode_literals::<T>(encode_literals(list)) == Some(list),
{
    let items = encode_literals(list)->Array_0;
    assert forall|i: int| 0 <= i < items.len() implies
        decode_literal::<T>(#[trigger] items[i]) == Some(list[i]) by {
        lemma_literal_round_trip(list[i]);
    }
    assert(items.map_values(|item: JsonValue| decode_literal::<T>(item).unwrap()) =~= list);
}

/// Writes a literal value as a JSON string.
pub fn literal_value<T: Literal>(t: &T) -> (v: serde_json::Value)
    ensures
        value_model(v) == encode_literal(*t),
{
    text_value(t.wire_name())
}

/// Reads a literal value from a JSON string.
pub fn value_literal<T: Literal>(v: &serde_json::Value) -> (r: Option<T>)
    ensures
        r == decode_literal::<T>(value_model(*v)),
{
    match v.as_str() {
        Some(text) => {
            let r = T::parse(text);
            proof {
                if r is Some {
                    lemma_from_literal(r.unwrap());
                }
            }
            r
        },
        None => None,
    }
}

} // verus!
