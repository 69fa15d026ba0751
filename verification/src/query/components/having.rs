//! Conditions on the results of a grouping.

use vstd::prelude::*;
use crate::json::{
    array_value, map_model, new_object, no_members, object_value, parse, same_text, value_model,
    value_models, JsonNumber, JsonValue, Object,
};
use crate::literal::{encode_literal, lemma_literal_round_trip, outline, Literal};
use crate::query::components::dimension::{DimensionSpec, DimensionSpecView};
use crate::query::components::filter::{Filter, FilterView};
use crate::query::number::{number, number_at, put_number, read_number, FloatingPointNumber};
use crate::wire::{
    get, lemma_bounded_empty, lemma_bounded_with, lemma_bounded_with_opt, lemma_get_empty,
    lemma_get_put, lemma_get_put_opt, lemma_get_some, literal_at, member_of, put_literal,
    put_opt_value, put_text, put_value, read_literal, read_text, text, text_at, Building, Field,
};

verus! {

broadcast use {
    lemma_bounded_empty,
    lemma_bounded_with,
    lemma_bounded_with_opt,
    lemma_get_empty,
    lemma_get_some,
    lemma_get_put,
    lemma_get_put_opt,
    lemma_literal_round_trip,
};

/// Discriminator of a having clause.
#[derive(Debug, Clone, Copy, PartialEq, Eq, Structural)]
pub enum HavingType {
    Filter,
    EqualTo,
    GreaterThan,
    LessThan,
    DimSelector,
    And,
    Or,
    Not,
}

impl Literal for HavingType {
    open spec fn literal(self) -> Seq<char> {
        match self {
            HavingType::Filter => "filter"@,
            HavingType::EqualTo => "equalTo"@,
            HavingType::GreaterThan => "greaterThan"@,
            HavingType::LessThan => "lessThan"@,
            HavingType::DimSelector => "dimSelector"@,
            HavingType::And => "and"@,
            HavingType::Or => "or"@,
            HavingType::Not => "not"@,
        }
    }

    proof fn lemma_literal_injective(a: Self, b: Self) {
        reveal_strlit("filter");
        reveal_strlit("equalTo");
        reveal_strlit("greaterThan");
        reveal_strlit("lessThan");
        reveal_strlit("dimSelector");
        reveal_strlit("and");
        reveal_strlit("or");
        reveal_strlit("not");
        assert(outline(a.literal()) == outline(b.literal()) ==> a == b);
    }

    fn wire_name(&self) -> (r: &'static str) {
        match self {
            HavingType::Filter => "filter",
            HavingType::EqualTo => "equalTo",
            HavingType::GreaterThan => "greaterThan",
            HavingType::LessThan => "lessThan",
            HavingType::DimSelector => "dimSelector",
            HavingType::And => "and",
            HavingType::Or => "or",
            HavingType::Not => "not",
        }
    }

    fn parse(text: &str) -> (r: Option<Self>) {
        if same_text(text, "filter") {
            Some(HavingType::Filter)
        } else if same_text(text, "equalTo") {
            Some(HavingType::EqualTo)
        } else if same_text(text, "greaterThan") {
            Some(HavingType::GreaterThan)
        } else if same_text(text, "lessThan") {
            Some(HavingType::LessThan)
        } else if same_text(text, "dimSelector") {
            Some(HavingType::DimSelector)
        } else if same_text(text, "and") {
            Some(HavingType::And)
        } else if same_text(text, "or") {
            Some(HavingType::Or)
        } else if same_text(text, "not") {
            Some(HavingType::Not)
        } else {
            None
        }
    }
}

/// A condition on the results of a grouping.
#[derive(Debug, PartialEq, Eq)]
#[allow(inconsistent_fields)]
pub enum Having {
    /// A filter holds of the result row.
    Filter {
        type_: HavingType,
        filter: Filter,
    },
    /// An aggregation equals `value`.
    EqualTo {
        type_: HavingType,
        aggregation: String,
        value: FloatingPointNumber,
    },
    /// An aggregation is greater than `value`.
    GreaterThan {
        type_: HavingType,
        aggregation: String,
        value: FloatingPointNumber,
    },
    /// An aggregation is less than `value`.
    LessThan {
        type_: HavingType,
        aggregation: String,
        value: FloatingPointNumber,
    },
    /// A dimension has the value given.
    DimSelector {
        type_: HavingType,
        dimension: String,
        value: DimensionSpec,
    },
    /// Every one of `having_specs` holds.
    And {
        type_: HavingType,
        having_specs: Vec<Box<Having>>,
    },
    /// At least one of `having_specs` holds.
    Or {
        type_: HavingType,
        having_specs: Vec<Box<Having>>,
    },
    /// The clauses of `having_specs` do not hold.
    Not {
        type_: HavingType,
        having_specs: Vec<Box<Having>>,
    },
}

/// What a having clause holds, as mathematics sees it.
#[allow(inconsistent_fields)]
pub enum HavingView {
    Filter {
        type_: HavingType,
        filter: FilterView,
    },
    EqualTo {
        type_: HavingType,
        aggregation: Seq<char>,
        value: JsonNumber,
    },
    GreaterThan {
        type_: HavingType,
        aggregation: Seq<char>,
        value: JsonNumber,
    },
    LessThan {
        type_: HavingType,
        aggregation: Seq<char>,
        value: JsonNumber,
    },
    DimSelector {
        type_: HavingType,
        dimension: Seq<char>,
        value: DimensionSpecView,
    },
    And {
        type_: HavingType,
        having_specs: Seq<HavingView>,
    },
    Or {
        type_: HavingType,
        having_specs: Seq<HavingView>,
    },
    Not {
        type_: HavingType,
        having_specs: Seq<HavingView>,
    },
}

impl Having {
    /// What this having clause holds.
    pub open spec fn model(&self) -> HavingView
        decreases self,
    {
        match self {
            Having::Filter { type_, filter } => HavingView::Filter {
                type_: *type_,
                filter: filter.model(),
            },
            Having::EqualTo { type_, aggregation, value } => HavingView::EqualTo {
                type_: *type_,
                aggregation: aggregation@,
                value: value@,
            },
            Having::GreaterThan { type_, aggregation, value } => HavingView::GreaterThan {
                type_: *type_,
                aggregation: aggregation@,
                value: value@,
            },
            Having::LessThan { type_, aggregation, value } => HavingView::LessThan {
                type_: *type_,
                aggregation: aggregation@,
                value: value@,
            },
            Having::DimSelector { type_, dimension, value } => HavingView::DimSelector {
                type_: *type_,
                dimension: dimension@,
                value: value.model(),
            },
            Having::And { type_, having_specs } => HavingView::And {
                type_: *type_,
                having_specs: Having::models(having_specs),
            },
            Having::Or { type_, having_specs } => HavingView::Or {
                type_: *type_,
                having_specs: Having::models(having_specs),
            },
            Having::Not { type_, having_specs } => HavingView::Not {
                type_: *type_,
                having_specs: Having::models(having_specs),
            },
        }
    }

    /// What a list of having clauses holds.
    pub open spec fn models(list: &Vec<Box<Having>>) -> Seq<HavingView>
        decreases list,
    {
        Seq::new(
            list@.len(),
            |i: int|
                if 0 <= i < list@.len() {
                    list@[i].model()
                } else {
                    arbitrary()
                },
        )
    }
}

impl View for Having {
    type V = HavingView;

    open spec fn view(&self) -> HavingView {
        self.model()
    }
}

impl DeepView for Having {
    type V = HavingView;

    open spec fn deep_view(&self) -> HavingView {
        self.model()
    }
}

impl HavingView {
    /// The discriminator that a having clause of this shape is meant to carry.
    pub open spec fn expected_type(self) -> HavingType {
        match self {
            HavingView::Filter { .. } => HavingType::Filter,
            HavingView::EqualTo { .. } => HavingType::EqualTo,
            HavingView::GreaterThan { .. } => HavingType::GreaterThan,
            HavingView::LessThan { .. } => HavingType::LessThan,
            HavingView::DimSelector { .. } => HavingType::DimSelector,
            HavingView::And { .. } => HavingType::And,
            HavingView::Or { .. } => HavingType::Or,
            HavingView::Not { .. } => HavingType::Not,
        }
    }

    /// The discriminator that this having clause carries.
    pub open spec fn carried_type(self) -> HavingType {
        match self {
            HavingView::Filter { type_, .. } => type_,
            HavingView::EqualTo { type_, .. } => type_,
            HavingView::GreaterThan { type_, .. } => type_,
            HavingView::LessThan { type_, .. } => type_,
            HavingView::DimSelector { type_, .. } => type_,
            HavingView::And { type_, .. } => type_,
            HavingView::Or { type_, .. } => type_,
            HavingView::Not { type_, .. } => type_,
        }
    }

    /// Whether the discriminator carried is the one the shape is meant to
    /// carry.
    pub open spec fn type_consistent(self) -> bool {
        self.carried_type() == self.expected_type()
    }

    /// Whether every component that this having clause owns is valid.
    pub open spec fn subcomponents_valid(self) -> bool
        decreases self, 0nat,
    {
        match self {
            HavingView::Filter { filter, .. } => filter.valid(),
            HavingView::DimSelector { value, .. } => value.valid(),
            HavingView::And { having_specs, .. } => HavingView::all_valid(having_specs),
            HavingView::Or { having_specs, .. } => HavingView::all_valid(having_specs),
            HavingView::Not { having_specs, .. } => HavingView::all_valid(having_specs),
            _ => true,
        }
    }

    /// Whether this having clause is valid: its discriminator fits its shape,
    /// and every component it owns is valid.
    pub open spec fn valid(self) -> bool
        decreases self, 1nat,
    {
        self.type_consistent() && self.subcomponents_valid()
    }

    /// Whether a having clause that may be absent is valid: an absent one is.
    pub open spec fn opt_valid(x: Option<HavingView>) -> bool {
        match x {
            Some(present) => present.valid(),
            None => true,
        }
    }

    /// Whether every one of a list of having clauses is valid. An empty list
    /// is.
    pub open spec fn all_valid(list: Seq<HavingView>) -> bool
        decreases list, 0nat,
    {
        forall|i: int| 0 <= i < list.len() ==> (#[trigger] list[i]).valid()
    }

    /// The document that stands for this having clause on the wire.
    #[verifier::opaque]
    pub open spec fn encode(self) -> JsonValue
        decreases self, 0nat,
    {
        match self {
            HavingView::Filter { type_, filter } => JsonValue::Object(
                no_members()
                    .with(Field::Type, encode_literal(type_))
                    .with(Field::Filter, filter.encode()),
            ),
            HavingView::EqualTo { type_, aggregation, value } => JsonValue::Object(
                no_members()
                    .with(Field::Type, encode_literal(type_))
                    .with(Field::Aggregation, text(aggregation))
                    .with(Field::Value, number(value)),
            ),
            HavingView::GreaterThan { type_, aggregation, value } => JsonValue::Object(
                no_members()
                    .with(Field::Type, encode_literal(type_))
                    .with(Field::Aggregation, text(aggregation))
                    .with(Field::Value, number(value)),
            ),
            HavingView::LessThan { type_, aggregation, value } => JsonValue::Object(
                no_members()
                    .with(Field::Type, encode_literal(type_))
                    .with(Field::Aggregation, text(aggregation))
                    .with(Field::Value, number(value)),
            ),
            HavingView::DimSelector { type_, dimension, value } => JsonValue::Object(
                no_members()
                    .with(Field::Type, encode_literal(type_))
                    .with(Field::Dimension, text(dimension))
                    .with(Field::Value, value.encode()),
            ),
            HavingView::And { type_, having_specs } => JsonValue::Object(
                no_members()
                    .with(Field::Type, encode_literal(type_))
                    .with(Field::HavingSpecs, HavingView::encode_all(having_specs)),
            ),
            HavingView::Or { type_, having_specs } => JsonValue::Object(
                no_members()
                    .with(Field::Type, encode_literal(type_))
                    .with(Field::HavingSpecs, HavingView::encode_all(having_specs)),
            ),
            HavingView::Not { type_, having_specs } => JsonValue::Object(
                no_members()
                    .with(Field::Type, encode_literal(type_))
                    .with(Field::HavingSpecs, HavingView::encode_all(having_specs)),
            ),
        }
    }

    /// The document of a having clause that may be absent.
    pub open spec fn encode_opt(x: Option<HavingView>) -> Option<JsonValue> {
        match x {
            Some(present) => Some(present.encode()),
            None => None,
        }
    }

    /// The document of a list of having clauses: a JSON array with one element
    /// for each, in order.
    pub open spec fn encode_all(list: Seq<HavingView>) -> JsonValue
        decreases list, 0nat,
    {
        JsonValue::Array(
            Seq::new(
                list.len(),
                |i: int|
                    if 0 <= i < list.len() {
                        list[i].encode()
                    } else {
                        arbitrary()
                    },
            ),
        )
    }

    /// The having clause that a document stands for, if it stands for one.
    /// Members that a having clause does not have are passed over.
    #[verifier::opaque]
    pub open spec fn decode(doc: JsonValue) -> Option<HavingView>
        decreases doc, 1nat,
    {
        match literal_at::<HavingType>(doc, Field::Type) {
            Some(HavingType::Filter) => match FilterView::at(doc, Field::Filter) {
                Some(filter) => Some(HavingView::Filter { type_: HavingType::Filter, filter }),
                None => None,
            },
            Some(HavingType::EqualTo) => match (
                text_at(doc, Field::Aggregation),
                number_at(doc, Field::Value),
            ) {
                (Some(aggregation), Some(value)) => {
                    Some(HavingView::EqualTo { type_: HavingType::EqualTo, aggregation, value })
                },
                _ => None,
            },
            Some(HavingType::GreaterThan) => match (
                text_at(doc, Field::Aggregation),
                number_at(doc, Field::Value),
            ) {
                (Some(aggregation), Some(value)) => {
                    Some(
                        HavingView::GreaterThan {
                            type_: HavingType::GreaterThan,
                            aggregation,
                            value,
                        },
                    )
                },
                _ => None,
            },
            Some(HavingType::LessThan) => match (
                text_at(doc, Field::Aggregation),
                number_at(doc, Field::Value),
            ) {
                (Some(aggregation), Some(value)) => {
                    Some(HavingView::LessThan { type_: HavingType::LessThan, aggregation, value })
                },
                _ => None,
            },
            Some(HavingType::DimSelector) => match (
                text_at(doc, Field::Dimension),
                DimensionSpecView::at(doc, Field::Value),
            ) {
                (Some(dimension), Some(value)) => {
                    Some(
                        HavingView::DimSelector {
                            type_: HavingType::DimSelector,
                            dimension,
                            value,
                        },
                    )
                },
                _ => None,
            },
            Some(HavingType::And) => match HavingView::all_at(doc, Field::HavingSpecs) {
                Some(having_specs) => {
                    Some(HavingView::And { type_: HavingType::And, having_specs })
                },
                None => None,
            },
            Some(HavingType::Or) => match HavingView::all_at(doc, Field::HavingSpecs) {
                Some(having_specs) => Some(HavingView::Or { type_: HavingType::Or, having_specs }),
                None => None,
            },
            Some(HavingType::Not) => match HavingView::all_at(doc, Field::HavingSpecs) {
                Some(having_specs) => {
                    Some(HavingView::Not { type_: HavingType::Not, having_specs })
                },
                None => None,
            },
            None => None,
        }
    }

    /// The having clause that a document may hold under `field`: the outer
    /// `None` says that the member is there and stands for none.
    pub open spec fn opt_at(doc: JsonValue, field: Field) -> Option<Option<HavingView>> {
        match get(doc, field) {
            Some(found) => match HavingView::decode(found) {
                Some(present) => Some(Some(present)),
                None => None,
            },
            None => Some(None),
        }
    }

    /// The list of having clauses that a document stands for, if it is a JSON
    /// array whose every element stands for one.
    pub open spec fn decode_all(doc: JsonValue) -> Option<Seq<HavingView>>
        decreases doc, 1nat,
    {
        match doc {
            JsonValue::Array(items) => if forall|i: int|
                0 <= i < items.len() ==> HavingView::decode(#[trigger] items[i]) is Some {
                Some(
                    Seq::new(
                        items.len(),
                        |i: int|
                            if 0 <= i < items.len() {
                                HavingView::decode(items[i]).unwrap()
                            } else {
                                arbitrary()
                            },
                    ),
                )
            } else {
                None
            },
            _ => None,
        }
    }

    /// The list of having clauses that a document must hold under `field`.
    pub open spec fn all_at(doc: JsonValue, field: Field) -> Option<Seq<HavingView>>
        decreases doc, 0nat,
    {
        match get(doc, field) {
            Some(found) => HavingView::decode_all(found),
            None => None,
        }
    }

    /// A having clause whose discriminator is not the one that its shape is
    /// meant to carry fails the type check, and so is not valid, whatever else
    /// it holds.
    pub proof fn lemma_mistagged(self)
        requires
            self.carried_type() != self.expected_type(),
        ensures
            !self.type_consistent(),
            !self.valid(),
    {
    }

    /// Whatever document it is read from, a decoded having clause is valid:
    /// decoding lets no mistagged value through.
    pub proof fn lemma_decoded_valid(doc: JsonValue)
        ensures
            HavingView::decode(doc) matches Some(x) ==> x.valid(),
        decreases doc, 1nat,
    {
        reveal(HavingView::decode);
        if get(doc, Field::Filter) is Some {
            FilterView::lemma_decoded_valid(get(doc, Field::Filter).unwrap());
        }
        if get(doc, Field::Value) is Some {
            DimensionSpecView::lemma_decoded_valid(get(doc, Field::Value).unwrap());
        }
        if get(doc, Field::HavingSpecs) is Some {
            HavingView::lemma_decoded_all_valid(get(doc, Field::HavingSpecs).unwrap());
        }
    }

    /// Whatever document it is read from, every one of a decoded list of having
    /// clauses is valid.
    pub proof fn lemma_decoded_all_valid(doc: JsonValue)
        ensures
            HavingView::decode_all(doc) matches Some(list) ==> HavingView::all_valid(list),
        decreases doc, 1nat,
    {
        reveal(HavingView::decode);
        if let JsonValue::Array(items) = doc {
            assert forall|i: int| 0 <= i < items.len() implies (
                HavingView::decode(#[trigger] items[i]) matches Some(x) ==> x.valid()
            ) by {
                HavingView::lemma_decoded_valid(items[i]);
            }
        }
    }

    /// Decoding the document of a valid having clause gives the having clause
    /// back.
    pub proof fn lemma_round_trip(self)
        requires
            self.valid(),
        ensures
            HavingView::decode(self.encode()) == Some(self),
            !(self.encode() is Null),
        decreases self, 0nat,
    {
        reveal(HavingView::encode);
        reveal(HavingView::decode);
        match self {
            HavingView::Filter { filter, .. } => {
                filter.lemma_round_trip();
            },
            HavingView::DimSelector { value, .. } => {
                value.lemma_round_trip();
            },
            HavingView::And { having_specs, .. } => {
                HavingView::lemma_round_trip_all(having_specs);
            },
            HavingView::Or { having_specs, .. } => {
                HavingView::lemma_round_trip_all(having_specs);
            },
            HavingView::Not { having_specs, .. } => {
                HavingView::lemma_round_trip_all(having_specs);
            },
            _ => {},
        }
    }

    /// Decoding the document of a list of valid having clauses gives the list
    /// back.
    pub proof fn lemma_round_trip_all(list: Seq<HavingView>)
        requires
            HavingView::all_valid(list),
        ensures
            HavingView::decode_all(HavingView::encode_all(list)) == Some(list),
        decreases list, 0nat,
    {
        reveal(HavingView::encode);
        reveal(HavingView::decode);
        let items = HavingView::encode_all(list)->Array_0;
        assert forall|i: int| 0 <= i < items.len() implies
            HavingView::decode(#[trigger] items[i]) == Some(list[i]) by {
            list[i].lemma_round_trip();
        }
        assert(HavingView::decode_all(HavingView::encode_all(list)).unwrap() =~= list);
    }
}

impl Having {
    /// Whether the discriminator fits the shape.
    pub fn validate_type(&self) -> (r: bool)
        ensures
            r == self@.type_consistent(),
    {
        match self {
            Having::Filter { type_, .. } => *type_ == HavingType::Filter,
            Having::EqualTo { type_, .. } => *type_ == HavingType::EqualTo,
            Having::GreaterThan { type_, .. } => *type_ == HavingType::GreaterThan,
            Having::LessThan { type_, .. } => *type_ == HavingType::LessThan,
            Having::DimSelector { type_, .. } => *type_ == HavingType::DimSelector,
            Having::And { type_, .. } => *type_ == HavingType::And,
            Having::Or { type_, .. } => *type_ == HavingType::Or,
            Having::Not { type_, .. } => *type_ == HavingType::Not,
        }
    }

    /// Whether every component that this having clause owns is valid.
    pub fn validate_subcomponents(&self) -> (r: bool)
        ensures
            r == self@.subcomponents_valid(),
        decreases self, 0nat,
    {
        match self {
            Having::Filter { filter, .. } => filter.validate(),
            Having::DimSelector { value, .. } => value.validate(),
            Having::And { having_specs, .. } => Having::validate_all(having_specs),
            Having::Or { having_specs, .. } => Having::validate_all(having_specs),
            Having::Not { having_specs, .. } => Having::validate_all(having_specs),
            _ => true,
        }
    }

    /// Whether this having clause is valid.
    pub fn validate(&self) -> (r: bool)
        ensures
            r == self@.valid(),
        decreases self, 1nat,
    {
        self.validate_type() && self.validate_subcomponents()
    }

    /// Whether a having clause that may be absent is valid.
    pub fn validate_opt(x: &Option<Having>) -> (r: bool)
        ensures
            r == HavingView::opt_valid(x.deep_view()),
    {
        match x {
            Some(present) => present.validate(),
            None => true,
        }
    }

    /// Whether every one of a list of having clauses is valid. Stops at the
    /// first that is not.
    pub fn validate_all(list: &Vec<Box<Having>>) -> (r: bool)
        ensures
            r == HavingView::all_valid(Having::models(list)),
        decreases list, 0nat,
    {
        let mut i: usize = 0;
        while i < list.len()
            invariant
                i <= list.len(),
                forall|k: int| 0 <= k < i ==> (#[trigger] list@[k]).model().valid(),
            decreases list.len() - i,
        {
            if !list[i].validate() {
                assert(!Having::models(list)[i as int].valid());
                return false;
            }
            i = i + 1;
        }
        true
    }

    /// Writes this having clause as the document that stands for it on the
    /// wire.
    pub fn encode(&self) -> (v: serde_json::Value)
        ensures
            value_model(v) == self@.encode(),
        decreases self, 0nat,
    {
        proof {
            reveal(HavingView::encode);
        }
        let mut members = new_object();
        match self {
            Having::Filter { type_, filter } => {
                put_literal(&mut members, Field::Type, type_);
                put_value(&mut members, Field::Filter, filter.encode());
            },
            Having::EqualTo { type_, aggregation, value } => {
                put_literal(&mut members, Field::Type, type_);
                put_text(&mut members, Field::Aggregation, aggregation.as_str());
                put_number(&mut members, Field::Value, value);
            },
            Having::GreaterThan { type_, aggregation, value } => {
                put_literal(&mut members, Field::Type, type_);
                put_text(&mut members, Field::Aggregation, aggregation.as_str());
                put_number(&mut members, Field::Value, value);
            },
            Having::LessThan { type_, aggregation, value } => {
                put_literal(&mut members, Field::Type, type_);
                put_text(&mut members, Field::Aggregation, aggregation.as_str());
                put_number(&mut members, Field::Value, value);
            },
            Having::DimSelector { type_, dimension, value } => {
                put_literal(&mut members, Field::Type, type_);
                put_text(&mut members, Field::Dimension, dimension.as_str());
                put_value(&mut members, Field::Value, value.encode());
            },
            Having::And { type_, having_specs } => {
                put_literal(&mut members, Field::Type, type_);
                put_value(&mut members, Field::HavingSpecs, Having::encode_all(having_specs));
            },
            Having::Or { type_, having_specs } => {
                put_literal(&mut members, Field::Type, type_);
                put_value(&mut members, Field::HavingSpecs, Having::encode_all(having_specs));
            },
            Having::Not { type_, having_specs } => {
                put_literal(&mut members, Field::Type, type_);
                put_value(&mut members, Field::HavingSpecs, Having::encode_all(having_specs));
            },
        }
        object_value(members)
    }

    /// Stores a having clause under `field`, unless it is absent.
    pub fn put_opt(members: &mut Object, field: Field, x: &Option<Having>)
        ensures
            map_model(*final(members))
                == map_model(*old(members)).with_opt(field, HavingView::encode_opt(x.deep_view())),
    {
        match x {
            Some(present) => put_opt_value(members, field, Some(present.encode())),
            None => put_opt_value(members, field, None),
        }
    }

    /// Writes a list of having clauses as a JSON array.
    pub fn encode_all(list: &Vec<Box<Having>>) -> (v: serde_json::Value)
        ensures
            value_model(v) == HavingView::encode_all(Having::models(list)),
        decreases list, 0nat,
    {
        proof {
            reveal(HavingView::encode);
        }
        let mut items: Vec<serde_json::Value> = Vec::new();
        let mut i: usize = 0;
        while i < list.len()
            invariant
                i <= list.len(),
                items@.len() == i,
                forall|k: int|
                    0 <= k < i ==> value_model(#[trigger] items@[k]) == list@[k].model().encode(),
            decreases list.len() - i,
        {
            items.push(list[i].encode());
            i = i + 1;
        }
        proof {
            assert(value_models(items@) =~= HavingView::encode_all(Having::models(list))->Array_0);
        }
        array_value(items)
    }

    /// Reads the having clause that a document stands for. Gives `None` where
    /// the document stands for none.
    pub fn decode(v: &serde_json::Value) -> (r: Option<Having>)
        ensures
            r.deep_view() == HavingView::decode(value_model(*v)),
        decreases value_model(*v), 1nat,
    {
        proof {
            reveal(HavingView::decode);
        }
        match read_literal::<HavingType>(v, Field::Type)? {
            HavingType::Filter => Some(Having::Filter {
                type_: HavingType::Filter,
                filter: Filter::read(v, Field::Filter)?,
            }),
            HavingType::EqualTo => Some(Having::EqualTo {
                type_: HavingType::EqualTo,
                aggregation: read_text(v, Field::Aggregation)?,
                value: read_number(v, Field::Value)?,
            }),
            HavingType::GreaterThan => Some(Having::GreaterThan {
                type_: HavingType::GreaterThan,
                aggregation: read_text(v, Field::Aggregation)?,
                value: read_number(v, Field::Value)?,
            }),
            HavingType::LessThan => Some(Having::LessThan {
                type_: HavingType::LessThan,
                aggregation: read_text(v, Field::Aggregation)?,
                value: read_number(v, Field::Value)?,
            }),
            HavingType::DimSelector => Some(Having::DimSelector {
                type_: HavingType::DimSelector,
                dimension: read_text(v, Field::Dimension)?,
                value: DimensionSpec::read(v, Field::Value)?,
            }),
            HavingType::And => Some(Having::And {
                type_: HavingType::And,
                having_specs: Having::read_all(v, Field::HavingSpecs)?,
            }),
            HavingType::Or => Some(Having::Or {
                type_: HavingType::Or,
                having_specs: Having::read_all(v, Field::HavingSpecs)?,
            }),
            HavingType::Not => Some(Having::Not {
                type_: HavingType::Not,
                having_specs: Having::read_all(v, Field::HavingSpecs)?,
            }),
        }
    }

    /// Reads a having clause that may stand under `field`. The outer `None`
    /// says that the member is there and stands for none.
    pub fn read_opt(v: &serde_json::Value, field: Field) -> (r: Option<Option<Having>>)
        ensures
            r.deep_view() == HavingView::opt_at(value_model(*v), field),
    {
        match member_of(v, field) {
            Some(found) => Some(Some(Having::decode(found)?)),
            None => Some(None),
        }
    }

    /// Reads the list of having clauses that a JSON array stands for.
    pub fn decode_all(v: &serde_json::Value) -> (r: Option<Vec<Box<Having>>>)
        ensures
            r matches Some(list) ==> HavingView::decode_all(value_model(*v)) == Some(
                Having::models(&list),
            ),
            r is None ==> HavingView::decode_all(value_model(*v)) is None,
        decreases value_model(*v), 1nat,
    {
        proof {
            reveal(HavingView::decode);
        }
        let items = v.as_array()?;
        let mut list: Vec<Box<Having>> = Vec::new();
        let mut i: usize = 0;
        while i < items.len()
            invariant
                i <= items.len(),
                list@.len() == i,
                value_model(*v) == JsonValue::Array(value_models(items@)),
                forall|k: int|
                    0 <= k < i ==> HavingView::decode(value_model(#[trigger] items@[k])) == Some(
                        list@[k].model(),
                    ),
            decreases items.len() - i,
        {
            match Having::decode(&items[i]) {
                Some(item) => {
                    list.push(Box::new(item));
                },
                None => {
                    reveal(HavingView::decode);
                    assert(HavingView::decode(value_models(items@)[i as int]) is None);
                    return None;
                },
            }
            i = i + 1;
        }
        proof {
            assert(HavingView::decode_all(value_model(*v)).unwrap() =~= Having::models(&list));
        }
        Some(list)
    }

    /// Reads a list of having clauses that must stand under `field`.
    pub fn read_all(v: &serde_json::Value, field: Field) -> (r: Option<Vec<Box<Having>>>)
        ensures
            r matches Some(list) ==> HavingView::all_at(value_model(*v), field) == Some(
                Having::models(&list),
            ),
            r is None ==> HavingView::all_at(value_model(*v), field) is None,
        decreases value_model(*v), 0nat,
    {
        proof {
            reveal(HavingView::decode);
        }
        let found = member_of(v, field)?;
        Having::decode_all(found)
    }

    /// A copy of this having clause.
    pub fn duplicate(&self) -> (r: Having)
        ensures
            r@ == self@,
        decreases self, 0nat,
    {
        match self {
            Having::Filter { type_, filter } => Having::Filter {
                type_: *type_,
                filter: filter.duplicate(),
            },
            Having::EqualTo { type_, aggregation, value } => Having::EqualTo {
                type_: *type_,
                aggregation: aggregation.clone(),
                value: value.duplicate(),
            },
            Having::GreaterThan { type_, aggregation, value } => Having::GreaterThan {
                type_: *type_,
                aggregation: aggregation.clone(),
                value: value.duplicate(),
            },
            Having::LessThan { type_, aggregation, value } => Having::LessThan {
                type_: *type_,
                aggregation: aggregation.clone(),
                value: value.duplicate(),
            },
            Having::DimSelector { type_, dimension, value } => Having::DimSelector {
                type_: *type_,
                dimension: dimension.clone(),
                value: value.duplicate(),
            },
            Having::And { type_, having_specs } => Having::And {
                type_: *type_,
                having_specs: Having::duplicate_all(having_specs),
            },
            Having::Or { type_, having_specs } => Having::Or {
                type_: *type_,
                having_specs: Having::duplicate_all(having_specs),
            },
            Having::Not { type_, having_specs } => Having::Not {
                type_: *type_,
                having_specs: Having::duplicate_all(having_specs),
            },
        }
    }

    /// A copy of a having clause that may be absent.
    pub fn duplicate_opt(x: &Option<Having>) -> (r: Option<Having>)
        ensures
            r.deep_view() == x.deep_view(),
    {
        match x {
            Some(present) => Some(present.duplicate()),
            None => None,
        }
    }

    /// A copy of a list of having clauses.
    pub fn duplicate_all(list: &Vec<Box<Having>>) -> (r: Vec<Box<Having>>)
        ensures
            Having::models(&r) == Having::models(list),
        decreases list, 0nat,
    {
        let mut copy: Vec<Box<Having>> = Vec::new();
        let mut i: usize = 0;
        while i < list.len()
            invariant
                i <= list.len(),
                copy@.len() == i,
                forall|k: int|
                    0 <= k < i ==> (#[trigger] copy@[k]).model() == list@[k].model(),
            decreases list.len() - i,
        {
            copy.push(Box::new(list[i].duplicate()));
            i = i + 1;
        }
        proof {
            assert(Having::models(&copy) =~= Having::models(list));
        }
        copy
    }
}

impl Clone for Having {
    fn clone(&self) -> (r: Self)
        ensures
            r@ == self@,
    {
        self.duplicate()
    }
}

} // verus!
