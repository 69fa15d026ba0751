//! Columns computed at query time.

use vstd::prelude::*;
use crate::json::{
    new_object, no_members, object_value, parse, same_text, value_model, JsonValue, Object,
};
use crate::literal::{encode_literal, lemma_literal_round_trip, Literal};
use crate::query::components::helpers::{Expression, OutputType};
use crate::wire::{
    get, lemma_bounded_empty, lemma_bounded_with, lemma_bounded_with_opt, lemma_get_empty,
    lemma_get_put, lemma_get_put_opt, lemma_get_some, literal_at, member_of, put_literal, put_text,
    read_literal, read_text, text, text_at, Building, Field,
};

verus! {

broadcast use {
    lemma_bounded_empty,
    lemma_bounded_with,
    lemma_bounded_with_opt,
    lemma_get_empty,
    lemma_get_some,
    lemma_get_put,
    lemma_get_put_opt,
    lemma_literal_round_trip,
};

/// Discriminator of a virtual column.
#[derive(Debug, Clone, Copy, PartialEq, Eq, Structural)]
pub enum VirtualColumnType {
    VirtualColumn,
}

impl Literal for VirtualColumnType {
    open spec fn literal(self) -> Seq<char> {
        match self {
            VirtualColumnType::VirtualColumn => "virtualColumn"@,
        }
    }

    proof fn lemma_literal_injective(a: Self, b: Self) {
    }

    fn wire_name(&self) -> (r: &'static str) {
        match self {
            VirtualColumnType::VirtualColumn => "virtualColumn",
        }
    }

    fn parse(text: &str) -> (r: Option<Self>) {
        if same_text(text, "virtualColumn") {
            Some(VirtualColumnType::VirtualColumn)
        } else {
            None
        }
    }
}

/// A column computed from an expression at query time.
#[derive(Debug, PartialEq, Eq)]
pub struct VirtualColumn {
    pub type_: VirtualColumnType,
    pub name: String,
    pub expression: Expression,
    pub output_type: OutputType,
}

/// What a virtual column holds, as mathematics sees it.
pub struct VirtualColumnView {
    pub type_: VirtualColumnType,
    pub name: Seq<char>,
    pub expression: Seq<char>,
    pub output_type: OutputType,
}

impl VirtualColumn {
    /// What this virtual column holds.
    pub open spec fn model(&self) -> VirtualColumnView {
        VirtualColumnView {
            type_: self.type_,
            name: self.name@,
            expression: self.expression@,
            output_type: self.output_type,
        }
    }
}

impl View for VirtualColumn {
    type V = VirtualColumnView;

    open spec fn view(&self) -> VirtualColumnView {
        self.model()
    }
}

impl DeepView for VirtualColumn {
    type V = VirtualColumnView;

    open spec fn deep_view(&self) -> VirtualColumnView {
        self.model()
    }
}

impl VirtualColumnView {
    /// Whether the discriminator is the one that a virtual column carries.
    /// There is only one, so it always is.
    pub open spec fn type_consistent(self) -> bool {
        self.type_ == VirtualColumnType::VirtualColumn
    }

    /// Whether every component that this virtual column owns is valid.
    pub open spec fn subcomponents_valid(self) -> bool {
        true
    }

    /// Whether this virtual column is valid: its discriminator fits its shape,
    /// and every component it owns is valid.
    pub open spec fn valid(self) -> bool {
        self.type_consistent() && self.subcomponents_valid()
    }

    /// The document that stands for this virtual column on the wire.
    #[verifier::opaque]
    pub open spec fn encode(self) -> JsonValue {
        JsonValue::Object(
            no_members()
                .with(Field::Type, encode_literal(self.type_))
                .with(Field::Name, text(self.name))
                .with(Field::Expression, text(self.expression))
                .with(Field::OutputType, encode_literal(self.output_type)),
        )
    }

    /// The virtual column that a document stands for, if it stands for one.
    /// Members that a virtual column does not have are passed over.
    #[verifier::opaque]
    pub open spec fn decode(doc: JsonValue) -> Option<VirtualColumnView> {
        match literal_at::<VirtualColumnType>(doc, Field::Type) {
            Some(type_) => match (
                text_at(doc, Field::Name),
                text_at(doc, Field::Expression),
                literal_at::<OutputType>(doc, Field::OutputType),
            ) {
                (Some(name), Some(expression), Some(output_type)) => {
                    Some(VirtualColumnView { type_, name, expression, output_type })
                },
                _ => None,
            },
            None => None,
        }
    }

    /// The virtual column that a document must hold under `field`.
    pub open spec fn at(doc: JsonValue, field: Field) -> Option<VirtualColumnView> {
        match get(doc, field) {
            Some(found) => VirtualColumnView::decode(found),
            None => None,
        }
    }

    /// Whatever document it is read from, a decoded virtual column is valid:
    /// decoding lets no mistagged value through.
    pub proof fn lemma_decoded_valid(doc: JsonValue)
        ensures
            VirtualColumnView::decode(doc) matches Some(x) ==> x.valid(),
    {
        reveal(VirtualColumnView::decode);
    }

    /// Decoding the document of a valid virtual column gives the virtual column
    /// back.
    pub proof fn lemma_round_trip(self)
        requires
            self.valid(),
        ensures
            VirtualColumnView::decode(self.encode()) == Some(self),
            !(self.encode() is Null),
    {
        reveal(VirtualColumnView::encode);
        reveal(VirtualColumnView::decode);
    }
}

impl VirtualColumn {
    /// Whether the discriminator fits the shape.
    pub fn validate_type(&self) -> (r: bool)
        ensures
            r == self@.type_consistent(),
    {
        match self.type_ {
            VirtualColumnType::VirtualColumn => true,
        }
    }

    /// Whether every component that this virtual column owns is valid.
    pub fn validate_subcomponents(&self) -> (r: bool)
        ensures
            r == self@.subcomponents_valid(),
    {
        true
    }

    /// Whether this virtual column is valid.
    pub fn validate(&self) -> (r: bool)
        ensures
            r == self@.valid(),
    {
        self.validate_type() && self.validate_subcomponents()
    }

    /// Writes this virtual column as the document that stands for it on the
    /// wire.
    pub fn encode(&self) -> (v: serde_json::Value)
        ensures
            value_model(v) == self@.encode(),
    {
        proof {
            reveal(VirtualColumnView::encode);
        }
        let mut members = new_object();
        put_literal(&mut members, Field::Type, &self.type_);
        put_text(&mut members, Field::Name, self.name.as_str());
        put_text(&mut members, Field::Expression, self.expression.as_str());
        put_literal(&mut members, Field::OutputType, &self.output_type);
        object_value(members)
    }

    /// Reads the virtual column that a document stands for. Gives `None` where
    /// the document stands for none.
    pub fn decode(v: &serde_json::Value) -> (r: Option<VirtualColumn>)
        ensures
            r.deep_view() == VirtualColumnView::decode(value_model(*v)),
    {
        proof {
            reveal(VirtualColumnView::decode);
        }
        let type_ = read_literal::<VirtualColumnType>(v, Field::Type)?;
        Some(VirtualColumn {
            type_,
            name: read_text(v, Field::Name)?,
            expression: read_text(v, Field::Expression)?,
            output_type: read_literal::<OutputType>(v, Field::OutputType)?,
        })
    }

    /// Reads a virtual column that must stand under `field`.
    pub fn read(v: &serde_json::Value, field: Field) -> (r: Option<VirtualColumn>)
        ensures
            r.deep_view() == VirtualColumnView::at(value_model(*v), field),
    {
        let found = member_of(v, field)?;
        VirtualColumn::decode(found)
    }

    /// A copy of this virtual column.
    pub fn duplicate(&self) -> (r: VirtualColumn)
        ensures
            r@ == self@,
    {
        VirtualColumn {
            type_: self.type_,
            name: self.name.clone(),
            expression: self.expression.clone(),
            output_type: self.output_type,
        }
    }
}

impl Clone for VirtualColumn {
    fn clone(&self) -> (r: Self)
        ensures
            r@ == self@,
    {
        self.duplicate()
    }
}

} // verus!
