//! Tuning parameters that travel with a query.

use vstd::prelude::*;
use crate::json::{
    copy_object, map_member, map_model, new_object, no_members, object_value, value_model,
    JsonValue, Members, Object,
};
use crate::query::number::{number, number_at, FloatingPointNumber, IntegerNumber};
use crate::wire::{
    bounded, flag, flag_at, get, member_of, put_flag, put_opt_value, put_text, put_unsigned,
    put_value, text, text_at, unsigned, unsigned_at, Building, Field,
};

verus! {

/// The tuning parameters that travel with a query: a bag of named values.
/// The bag is handed on as it is. No parameter in it is checked, and the
/// engine alone decides what each may hold.
#[derive(Debug, PartialEq, Eq)]
pub struct Context {
    pub parameters: Object,
}

/// What a context holds, as mathematics sees it: its parameters by name.
pub struct ContextView {
    pub parameters: Members,
}

impl Context {
    /// What this context holds.
    pub open spec fn model(&self) -> ContextView {
        ContextView { parameters: map_model(self.parameters) }
    }
}

impl View for Context {
    type V = ContextView;

    open spec fn view(&self) -> ContextView {
        self.model()
    }
}

impl DeepView for Context {
    type V = ContextView;

    open spec fn deep_view(&self) -> ContextView {
        self.model()
    }
}

impl ContextView {
    /// The document that stands for this context on the wire: a JSON object
    /// with the parameters as its members.
    pub open spec fn encode(self) -> JsonValue {
        JsonValue::Object(self.parameters)
    }

    /// The document of a context that may be absent.
    pub open spec fn encode_opt(x: Option<ContextView>) -> Option<JsonValue> {
        match x {
            Some(present) => Some(present.encode()),
            None => None,
        }
    }

    /// The context that a document stands for: every JSON object stands for
    /// the context that has its members as parameters, and nothing else
    /// stands for a context.
    pub open spec fn decode(doc: JsonValue) -> Option<ContextView> {
        match doc {
            JsonValue::Object(parameters) => Some(ContextView { parameters }),
            _ => None,
        }
    }

    /// The context that a document may hold under `field`: the outer `None`
    /// says that the member is there and stands for none.
    pub open spec fn opt_at(doc: JsonValue, field: Field) -> Option<Option<ContextView>> {
        match get(doc, field) {
            Some(found) => match ContextView::decode(found) {
                Some(present) => Some(Some(present)),
                None => None,
            },
            None => Some(None),
        }
    }

    /// Decoding the document of a context gives the context back.
    pub proof fn lemma_round_trip(self)
        ensures
            ContextView::decode(self.encode()) == Some(self),
            !(self.encode() is Null),
    {
    }
}

impl Context {
    /// A context without parameters.
    pub fn new() -> (r: Context)
        ensures
            r@.parameters == no_members(),
    {
        Context { parameters: new_object() }
    }

    /// A copy of this context.
    pub fn duplicate(&self) -> (r: Context)
        ensures
            r@ == self@,
    {
        Context { parameters: copy_object(&self.parameters) }
    }

    /// A copy of a context that may be absent.
    pub fn duplicate_opt(x: &Option<Context>) -> (r: Option<Context>)
        ensures
            r.deep_view() == x.deep_view(),
    {
        match x {
            Some(present) => Some(present.duplicate()),
            None => None,
        }
    }

    /// Sets a parameter that holds a whole number.
    pub fn set_integer(&mut self, name: Field, value: IntegerNumber)
        ensures
            final(self)@.parameters == old(self)@.parameters.with(name, unsigned(value)),
    {
        put_unsigned(&mut self.parameters, name, value);
    }

    /// Sets a parameter that holds a flag.
    pub fn set_flag(&mut self, name: Field, value: bool)
        ensures
            final(self)@.parameters == old(self)@.parameters.with(name, flag(value)),
    {
        put_flag(&mut self.parameters, name, value);
    }

    /// Sets a parameter that holds a text.
    pub fn set_text(&mut self, name: Field, value: &str)
        ensures
            final(self)@.parameters == old(self)@.parameters.with(name, text(value@)),
    {
        put_text(&mut self.parameters, name, value);
    }

    /// Sets a parameter that holds a number that need not be whole.
    pub fn set_number(&mut self, name: Field, value: &FloatingPointNumber)
        ensures
            final(self)@.parameters == old(self)@.parameters.with(name, number(value@)),
    {
        put_value(&mut self.parameters, name, value.encode());
    }

    /// The value of a parameter, unless the parameter is absent or `null`.
    fn parameter(&self, name: Field) -> (r: Option<&serde_json::Value>)
        ensures
            r is Some <==> get(self@.encode(), name) is Some,
            r matches Some(found) ==> get(self@.encode(), name) == Some(value_model(*found)),
    {
        proof {
            reveal(get);
            reveal(bounded);
        }
        match map_member(&self.parameters, name.text()) {
            Some(found) => if found.is_null() {
                None
            } else {
                Some(found)
            },
            None => None,
        }
    }

    /// The whole number that a parameter holds, if the parameter is there
    /// and holds one.
    pub fn integer(&self, name: Field) -> (r: Option<IntegerNumber>)
        ensures
            r == unsigned_at(self@.encode(), name),
    {
        self.parameter(name)?.as_u64()
    }

    /// The flag that a parameter holds, if the parameter is there and holds
    /// one.
    pub fn flag(&self, name: Field) -> (r: Option<bool>)
        ensures
            r == flag_at(self@.encode(), name),
    {
        self.parameter(name)?.as_bool()
    }

    /// The text that a parameter holds, if the parameter is there and holds
    /// one.
    pub fn text(&self, name: Field) -> (r: Option<String>)
        ensures
            r.deep_view() == text_at(self@.encode(), name),
    {
        Some(self.parameter(name)?.as_str()?.to_owned())
    }

    /// The number that a parameter holds, if the parameter is there and
    /// holds one.
    pub fn number(&self, name: Field) -> (r: Option<FloatingPointNumber>)
        ensures
            r.deep_view() == number_at(self@.encode(), name),
    {
        FloatingPointNumber::decode(self.parameter(name)?)
    }

    /// Writes this context as the document that stands for it on the wire.
    pub fn encode(&self) -> (v: serde_json::Value)
        ensures
            value_model(v) == self@.encode(),
    {
        object_value(copy_object(&self.parameters))
    }

    /// Stores a context under `field`, unless it is absent.
    pub fn put_opt(members: &mut Object, field: Field, x: &Option<Context>)
        ensures
            map_model(*final(members))
                == map_model(*old(members)).with_opt(field, ContextView::encode_opt(x.deep_view())),
    {
        match x {
            Some(present) => put_opt_value(members, field, Some(present.encode())),
            None => put_opt_value(members, field, None),
        }
    }

    /// Reads the context that a document stands for. Gives `None` where the
    /// document is not a JSON object.
    pub fn decode(v: &serde_json::Value) -> (r: Option<Context>)
        ensures
            r.deep_view() == ContextView::decode(value_model(*v)),
    {
        let parameters = v.as_object()?;
        Some(Context { parameters: copy_object(parameters) })
    }

    /// Reads a context that may stand under `field`. The outer `None` says
    /// that the member is there and stands for none.
    pub fn read_opt(v: &serde_json::Value, field: Field) -> (r: Option<Option<Context>>)
        ensures
            r.deep_view() == ContextView::opt_at(value_model(*v), field),
    {
        match member_of(v, field) {
            Some(found) => Some(Some(Context::decode(found)?)),
            None => Some(None),
        }
    }
}

impl Default for Context {
    fn default() -> (r: Self)
        ensures
            r@.parameters == no_members(),
    {
        Context::new()
    }
}

impl Clone for Context {
    fn clone(&self) -> (r: Self)
        ensures
            r@ == self@,
    {
        self.duplicate()
    }
}

} // verus!
