//! The numbers that a query carries.

use vstd::prelude::*;
use crate::json::{
    copy_number, map_model, number_model, number_value, value_model, JsonNumber, JsonValue, Object,
};
use crate::wire::{as_numeral, get, member_of, put_opt_value, put_value, Building, Field};

verus! {

/// A whole number in a query.
pub type IntegerNumber = u64;

/// A number in a query that need not be whole. It is held as the JSON number
/// that goes on the wire, so it is always finite.
#[derive(Debug, PartialEq, Eq)]
pub struct FloatingPointNumber {
    pub number: serde_json::Number,
}

impl View for FloatingPointNumber {
    type V = JsonNumber;

    open spec fn view(&self) -> JsonNumber {
        number_model(self.number)
    }
}

impl DeepView for FloatingPointNumber {
    type V = JsonNumber;

    open spec fn deep_view(&self) -> JsonNumber {
        number_model(self.number)
    }
}

/// The document of a number.
pub open spec fn number(n: JsonNumber) -> JsonValue {
    JsonValue::Number(n)
}

/// The document of a number that may be absent.
pub open spec fn opt_number(x: Option<JsonNumber>) -> Option<JsonValue> {
    match x {
        Some(present) => Some(number(present)),
        None => None,
    }
}

/// A number that a document must hold under `field`.
pub open spec fn number_at(doc: JsonValue, field: Field) -> Option<JsonNumber> {
    match get(doc, field) {
        Some(found) => as_numeral(found),
        None => None,
    }
}

/// A number that a document may hold under `field`: the outer `None` says
/// that the member is there and is not a number.
pub open spec fn opt_number_at(doc: JsonValue, field: Field) -> Option<Option<JsonNumber>> {
    match get(doc, field) {
        Some(found) => match as_numeral(found) {
            Some(present) => Some(Some(present)),
            None => None,
        },
        None => Some(None),
    }
}

impl FloatingPointNumber {
    /// The number that a JSON number stands for.
    pub fn new(number: serde_json::Number) -> (r: FloatingPointNumber)
        ensures
            r@ == number_model(number),
    {
        FloatingPointNumber { number }
    }

    /// A copy of this number.
    pub fn duplicate(&self) -> (r: FloatingPointNumber)
        ensures
            r@ == self@,
    {
        FloatingPointNumber { number: copy_number(&self.number) }
    }

    /// A copy of a number that may be absent.
    pub fn duplicate_opt(x: &Option<FloatingPointNumber>) -> (r: Option<FloatingPointNumber>)
        ensures
            r.deep_view() == x.deep_view(),
    {
        match x {
            Some(present) => Some(present.duplicate()),
            None => None,
        }
    }

    /// Writes the number as a JSON number.
    pub fn encode(&self) -> (v: serde_json::Value)
        ensures
            value_model(v) == number(self@),
    {
        number_value(copy_number(&self.number))
    }

    /// Reads a number from a JSON number.
    pub fn decode(v: &serde_json::Value) -> (r: Option<FloatingPointNumber>)
        ensures
            r.deep_view() == as_numeral(value_model(*v)),
    {
        let found = v.as_number()?;
        Some(FloatingPointNumber { number: copy_number(found) })
    }
}

impl Clone for FloatingPointNumber {
    fn clone(&self) -> (r: Self)
        ensures
            r@ == self@,
    {
        self.duplicate()
    }
}

/// Stores a number under `field`.
pub fn put_number(members: &mut Object, field: Field, x: &FloatingPointNumber)
    ensures
        map_model(*final(members)) == map_model(*old(members)).with(field, number(x@)),
{
    put_value(members, field, x.encode());
}

/// Stores a number under `field`, unless it is absent.
pub fn put_opt_number(members: &mut Object, field: Field, x: &Option<FloatingPointNumber>)
    ensures
        map_model(*final(members))
            == map_model(*old(members)).with_opt(field, opt_number(x.deep_view())),
{
    match x {
        Some(present) => put_opt_value(members, field, Some(present.encode())),
        None => put_opt_value(members, field, None),
    }
}

/// Reads a number that must stand under `field`.
pub fn read_number(v: &serde_json::Value, field: Field) -> (r: Option<FloatingPointNumber>)
    ensures
        r.deep_view() == number_at(value_model(*v), field),
{
    let found = member_of(v, field)?;
    FloatingPointNumber::decode(found)
}

/// Reads a number that may stand under `field`. The outer `None` says that
/// the member is there and is not a number.
pub fn read_opt_number(
    v: &serde_json::Value,
    field: Field,
) -> (r: Option<Option<FloatingPointNumber>>)
    ensures
        r.deep_view() == opt_number_at(value_model(*v), field),
{
    match member_of(v, field) {
        Some(found) => Some(Some(FloatingPointNumber::decode(found)?)),
        None => Some(None),
    }
}

} // verus!
