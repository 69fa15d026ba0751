//! Limits on grouped results.

use vstd::prelude::*;
use crate::json::{
    map_model, new_object, no_members, object_value, parse, same_text, value_model, JsonValue,
    Object,
};
use crate::literal::{encode_literal, lemma_literal_round_trip, Literal};
use crate::query::components::helpers::{OrderByColumnSpec, OrderByColumnSpecView};
use crate::query::number::IntegerNumber;
use crate::wire::{
    get, lemma_bounded_empty, lemma_bounded_with, lemma_bounded_with_opt, lemma_get_empty,
    lemma_get_put, lemma_get_put_opt, lemma_get_some, literal_at, member_of, opt_unsigned,
    opt_unsigned_at, put_literal, put_opt_unsigned, put_opt_value, read_literal, read_opt_unsigned,
    Building, Field,
};

verus! {

broadcast use {
    lemma_bounded_empty,
    lemma_bounded_with,
    lemma_bounded_with_opt,
    lemma_get_empty,
    lemma_get_some,
    lemma_get_put,
    lemma_get_put_opt,
    lemma_literal_round_trip,
};

/// Discriminator of a limit on grouped results.
#[derive(Debug, Clone, Copy, PartialEq, Eq, Structural)]
pub enum LimitSpecType {
    Default,
}

impl Literal for LimitSpecType {
    open spec fn literal(self) -> Seq<char> {
        match self {
            LimitSpecType::Default => "default"@,
        }
    }

    proof fn lemma_literal_injective(a: Self, b: Self) {
    }

    fn wire_name(&self) -> (r: &'static str) {
        match self {
            LimitSpecType::Default => "default",
        }
    }

    fn parse(text: &str) -> (r: Option<Self>) {
        if same_text(text, "default") {
            Some(LimitSpecType::Default)
        } else {
            None
        }
    }
}

/// How many grouped results are returned, and in which order.
#[derive(Debug, PartialEq, Eq)]
pub struct LimitSpec {
    pub type_: LimitSpecType,
    pub limit: Option<IntegerNumber>,
    pub offset: Option<IntegerNumber>,
    pub columns: Option<Vec<OrderByColumnSpec>>,
}

/// What a limit holds, as mathematics sees it.
pub struct LimitSpecView {
    pub type_: LimitSpecType,
    pub limit: Option<u64>,
    pub offset: Option<u64>,
    pub columns: Option<Seq<OrderByColumnSpecView>>,
}

impl LimitSpec {
    /// What this limit holds.
    pub open spec fn model(&self) -> LimitSpecView {
        LimitSpecView {
            type_: self.type_,
            limit: self.limit,
            offset: self.offset,
            columns: OrderByColumnSpec::opt_models(&self.columns),
        }
    }
}

impl View for LimitSpec {
    type V = LimitSpecView;

    open spec fn view(&self) -> LimitSpecView {
        self.model()
    }
}

impl DeepView for LimitSpec {
    type V = LimitSpecView;

    open spec fn deep_view(&self) -> LimitSpecView {
        self.model()
    }
}

impl LimitSpecView {
    /// Whether the discriminator is the one that a limit carries. There is only
    /// one, so it always is.
    pub open spec fn type_consistent(self) -> bool {
        self.type_ == LimitSpecType::Default
    }

    /// Whether every component that this limit owns is valid.
    pub open spec fn subcomponents_valid(self) -> bool {
        true
    }

    /// Whether this limit is valid: its discriminator fits its shape, and every
    /// component it owns is valid.
    pub open spec fn valid(self) -> bool {
        self.type_consistent() && self.subcomponents_valid()
    }

    /// Whether a limit that may be absent is valid: an absent one is.
    pub open spec fn opt_valid(x: Option<LimitSpecView>) -> bool {
        match x {
            Some(present) => present.valid(),
            None => true,
        }
    }

    /// The document that stands for this limit on the wire.
    #[verifier::opaque]
    pub open spec fn encode(self) -> JsonValue {
        JsonValue::Object(
            no_members()
                .with(Field::Type, encode_literal(self.type_))
                .with_opt(Field::Limit, opt_unsigned(self.limit))
                .with_opt(Field::Offset, opt_unsigned(self.offset))
                .with_opt(Field::Columns, OrderByColumnSpecView::encode_opt_all(self.columns)),
        )
    }

    /// The document of a limit that may be absent.
    pub open spec fn encode_opt(x: Option<LimitSpecView>) -> Option<JsonValue> {
        match x {
            Some(present) => Some(present.encode()),
            None => None,
        }
    }

    /// The limit that a document stands for, if it stands for one. Members that
    /// a limit does not have are passed over.
    #[verifier::opaque]
    pub open spec fn decode(doc: JsonValue) -> Option<LimitSpecView> {
        match literal_at::<LimitSpecType>(doc, Field::Type) {
            Some(type_) => match (
                opt_unsigned_at(doc, Field::Limit),
                opt_unsigned_at(doc, Field::Offset),
                OrderByColumnSpecView::opt_all_at(doc, Field::Columns),
            ) {
                (Some(limit), Some(offset), Some(columns)) => {
                    Some(LimitSpecView { type_, limit, offset, columns })
                },
                _ => None,
            },
            None => None,
        }
    }

    /// The limit that a document may hold under `field`: the outer `None` says
    /// that the member is there and stands for none.
    pub open spec fn opt_at(doc: JsonValue, field: Field) -> Option<Option<LimitSpecView>> {
        match get(doc, field) {
            Some(found) => match LimitSpecView::decode(found) {
                Some(present) => Some(Some(present)),
                None => None,
            },
            None => Some(None),
        }
    }

    /// Whatever document it is read from, a decoded limit is valid: decoding
    /// lets no mistagged value through.
    pub proof fn lemma_decoded_valid(doc: JsonValue)
        ensures
            LimitSpecView::decode(doc) matches Some(x) ==> x.valid(),
    {
        reveal(LimitSpecView::decode);
    }

    /// Decoding the document of a valid limit gives the limit back.
    pub proof fn lemma_round_trip(self)
        requires
            self.valid(),
        ensures
            LimitSpecView::decode(self.encode()) == Some(self),
            !(self.encode() is Null),
    {
        reveal(LimitSpecView::encode);
        reveal(LimitSpecView::decode);
        if self.columns is Some {
            OrderByColumnSpecView::lemma_round_trip_all(self.columns.unwrap());
        }
    }
}

impl LimitSpec {
    /// Whether the discriminator fits the shape.
    pub fn validate_type(&self) -> (r: bool)
        ensures
            r == self@.type_consistent(),
    {
        match self.type_ {
            LimitSpecType::Default => true,
        }
    }

    /// Whether every component that this limit owns is valid.
    pub fn validate_subcomponents(&self) -> (r: bool)
        ensures
            r == self@.subcomponents_valid(),
    {
        true
    }

    /// Whether this limit is valid.
    pub fn validate(&self) -> (r: bool)
        ensures
            r == self@.valid(),
    {
        self.validate_type() && self.validate_subcomponents()
    }

    /// Whether a limit that may be absent is valid.
    pub fn validate_opt(x: &Option<LimitSpec>) -> (r: bool)
        ensures
            r == LimitSpecView::opt_valid(x.deep_view()),
    {
        match x {
            Some(present) => present.validate(),
            None => true,
        }
    }

    /// Writes this limit as the document that stands for it on the wire.
    pub fn encode(&self) -> (v: serde_json::Value)
        ensures
            value_model(v) == self@.encode(),
    {
        proof {
            reveal(LimitSpecView::encode);
        }
        let mut members = new_object();
        put_literal(&mut members, Field::Type, &self.type_);
        put_opt_unsigned(&mut members, Field::Limit, self.limit);
        put_opt_unsigned(&mut members, Field::Offset, self.offset);
        OrderByColumnSpec::put_opt_all(&mut members, Field::Columns, &self.columns);
        object_value(members)
    }

    /// Stores a limit under `field`, unless it is absent.
    pub fn put_opt(members: &mut Object, field: Field, x: &Option<LimitSpec>)
        ensures
            map_model(*final(members))
                == map_model(*old(members)).with_opt(
                    field,
                    LimitSpecView::encode_opt(x.deep_view()),
                ),
    {
        match x {
            Some(present) => put_opt_value(members, field, Some(present.encode())),
            None => put_opt_value(members, field, None),
        }
    }

    /// Reads the limit that a document stands for. Gives `None` where the
    /// document stands for none.
    pub fn decode(v: &serde_json::Value) -> (r: Option<LimitSpec>)
        ensures
            r.deep_view() == LimitSpecView::decode(value_model(*v)),
    {
        proof {
            reveal(LimitSpecView::decode);
        }
        let type_ = read_literal::<LimitSpecType>(v, Field::Type)?;
        Some(LimitSpec {
            type_,
            limit: read_opt_unsigned(v, Field::Limit)?,
            offset: read_opt_unsigned(v, Field::Offset)?,
            columns: OrderByColumnSpec::read_opt_all(v, Field::Columns)?,
        })
    }

    /// Reads a limit that may stand under `field`. The outer `None` says that
    /// the member is there and stands for none.
    pub fn read_opt(v: &serde_json::Value, field: Field) -> (r: Option<Option<LimitSpec>>)
        ensures
            r.deep_view() == LimitSpecView::opt_at(value_model(*v), field),
    {
        match member_of(v, field) {
            Some(found) => Some(Some(LimitSpec::decode(found)?)),
            None => Some(None),
        }
    }

    /// A copy of this limit.
    pub fn duplicate(&self) -> (r: LimitSpec)
        ensures
            r@ == self@,
    {
        LimitSpec {
            type_: self.type_,
            limit: self.limit,
            offset: self.offset,
            columns: OrderByColumnSpec::duplicate_opt_all(&self.columns),
        }
    }

    /// A copy of a limit that may be absent.
    pub fn duplicate_opt(x: &Option<LimitSpec>) -> (r: Option<LimitSpec>)
        ensures
            r.deep_view() == x.deep_view(),
    {
        match x {
            Some(present) => Some(present.duplicate()),
            None => None,
        }
    }
}

impl Clone for LimitSpec {
    fn clone(&self) -> (r: Self)
        ensures
            r@ == self@,
    {
        self.duplicate()
    }
}

} // verus!
