//! Rankings for top-N queries.

use vstd::prelude::*;
use crate::json::{
    new_object, no_members, object_value, parse, same_text, value_model, JsonValue, Object,
};
use crate::literal::{encode_literal, lemma_literal_round_trip, outline, Literal};
use crate::wire::{
    copy_opt_text, get, lemma_bounded_empty, lemma_bounded_with, lemma_bounded_with_opt,
    lemma_get_empty, lemma_get_put, lemma_get_put_opt, lemma_get_some, literal_at, member_of,
    opt_text, opt_text_at, put_literal, put_opt_text, put_text, read_literal, read_opt_text,
    read_text, text, text_at, Building, Field,
};

verus! {

broadcast use {
    lemma_bounded_empty,
    lemma_bounded_with,
    lemma_bounded_with_opt,
    lemma_get_empty,
    lemma_get_some,
    lemma_get_put,
    lemma_get_put_opt,
    lemma_literal_round_trip,
};

/// Discriminator of a top-N ranking.
#[derive(Debug, Clone, Copy, PartialEq, Eq, Structural)]
pub enum TopNMetricSpecType {
    Numeric,
    Dimension,
}

impl Literal for TopNMetricSpecType {
    open spec fn literal(self) -> Seq<char> {
        match self {
            TopNMetricSpecType::Numeric => "numeric"@,
            TopNMetricSpecType::Dimension => "dimension"@,
        }
    }

    proof fn lemma_literal_injective(a: Self, b: Self) {
        reveal_strlit("numeric");
        reveal_strlit("dimension");
        assert(outline(a.literal()) == outline(b.literal()) ==> a == b);
    }

    fn wire_name(&self) -> (r: &'static str) {
        match self {
            TopNMetricSpecType::Numeric => "numeric",
            TopNMetricSpecType::Dimension => "dimension",
        }
    }

    fn parse(text: &str) -> (r: Option<Self>) {
        if same_text(text, "numeric") {
            Some(TopNMetricSpecType::Numeric)
        } else if same_text(text, "dimension") {
            Some(TopNMetricSpecType::Dimension)
        } else {
            None
        }
    }
}

/// How a top-N query ranks the values of its dimension.
#[derive(Debug, PartialEq, Eq)]
pub enum TopNMetricSpec {
    /// By the value of a metric.
    Numeric {
        type_: TopNMetricSpecType,
        metric: String,
    },
    /// By the dimension's own values.
    Dimension {
        type_: TopNMetricSpecType,
        ordering: Option<String>,
        previous_stop: Option<String>,
    },
}

/// What a ranking holds, as mathematics sees it.
pub enum TopNMetricSpecView {
    Numeric {
        type_: TopNMetricSpecType,
        metric: Seq<char>,
    },
    Dimension {
        type_: TopNMetricSpecType,
        ordering: Option<Seq<char>>,
        previous_stop: Option<Seq<char>>,
    },
}

impl TopNMetricSpec {
    /// What this ranking holds.
    pub open spec fn model(&self) -> TopNMetricSpecView {
        match self {
            TopNMetricSpec::Numeric { type_, metric } => TopNMetricSpecView::Numeric {
                type_: *type_,
                metric: metric@,
            },
            TopNMetricSpec::Dimension {
                type_,
                ordering,
                previous_stop,
            } => TopNMetricSpecView::Dimension {
                type_: *type_,
                ordering: ordering.deep_view(),
                previous_stop: previous_stop.deep_view(),
            },
        }
    }
}

impl View for TopNMetricSpec {
    type V = TopNMetricSpecView;

    open spec fn view(&self) -> TopNMetricSpecView {
        self.model()
    }
}

impl DeepView for TopNMetricSpec {
    type V = TopNMetricSpecView;

    open spec fn deep_view(&self) -> TopNMetricSpecView {
        self.model()
    }
}

impl TopNMetricSpecView {
    /// The discriminator that a ranking of this shape is meant to carry.
    pub open spec fn expected_type(self) -> TopNMetricSpecType {
        match self {
            TopNMetricSpecView::Numeric { .. } => TopNMetricSpecType::Numeric,
            TopNMetricSpecView::Dimension { .. } => TopNMetricSpecType::Dimension,
        }
    }

    /// The discriminator that this ranking carries.
    pub open spec fn carried_type(self) -> TopNMetricSpecType {
        match self {
            TopNMetricSpecView::Numeric { type_, .. } => type_,
            TopNMetricSpecView::Dimension { type_, .. } => type_,
        }
    }

    /// Whether the discriminator carried is the one the shape is meant to
    /// carry.
    pub open spec fn type_consistent(self) -> bool {
        self.carried_type() == self.expected_type()
    }

    /// Whether every component that this ranking owns is valid.
    pub open spec fn subcomponents_valid(self) -> bool {
        match self {
            _ => true,
        }
    }

    /// Whether this ranking is valid: its discriminator fits its shape, and
    /// every component it owns is valid.
    pub open spec fn valid(self) -> bool {
        self.type_consistent() && self.subcomponents_valid()
    }

    /// The document that stands for this ranking on the wire.
    #[verifier::opaque]
    pub open spec fn encode(self) -> JsonValue {
        match self {
            TopNMetricSpecView::Numeric { type_, metric } => JsonValue::Object(
                no_members()
                    .with(Field::Type, encode_literal(type_))
                    .with(Field::Metric, text(metric)),
            ),
            TopNMetricSpecView::Dimension { type_, ordering, previous_stop } => JsonValue::Object(
                no_members()
                    .with(Field::Type, encode_literal(type_))
                    .with_opt(Field::Collation, opt_text(ordering))
                    .with_opt(Field::PreviousStop, opt_text(previous_stop)),
            ),
        }
    }

    /// The ranking that a document stands for, if it stands for one. Members
    /// that a ranking does not have are passed over.
    #[verifier::opaque]
    pub open spec fn decode(doc: JsonValue) -> Option<TopNMetricSpecView> {
        match literal_at::<TopNMetricSpecType>(doc, Field::Type) {
            Some(TopNMetricSpecType::Numeric) => match text_at(doc, Field::Metric) {
                Some(metric) => {
                    Some(TopNMetricSpecView::Numeric { type_: TopNMetricSpecType::Numeric, metric })
                },
                None => None,
            },
            Some(TopNMetricSpecType::Dimension) => match (
                opt_text_at(doc, Field::Collation),
                opt_text_at(doc, Field::PreviousStop),
            ) {
                (Some(ordering), Some(previous_stop)) => {
                    Some(TopNMetricSpecView::Dimension {
                        type_: TopNMetricSpecType::Dimension,
                        ordering,
                        previous_stop,
                    })
                },
                _ => None,
            },
            None => None,
        }
    }

    /// The ranking that a document must hold under `field`.
    pub open spec fn at(doc: JsonValue, field: Field) -> Option<TopNMetricSpecView> {
        match get(doc, field) {
            Some(found) => TopNMetricSpecView::decode(found),
            None => None,
        }
    }

    /// A ranking whose discriminator is not the one that its shape is meant to
    /// carry fails the type check, and so is not valid, whatever else it holds.
    pub proof fn lemma_mistagged(self)
        requires
            self.carried_type() != self.expected_type(),
        ensures
            !self.type_consistent(),
            !self.valid(),
    {
    }

    /// Whatever document it is read from, a decoded ranking is valid: decoding
    /// lets no mistagged value through.
    pub proof fn lemma_decoded_valid(doc: JsonValue)
        ensures
            TopNMetricSpecView::decode(doc) matches Some(x) ==> x.valid(),
    {
        reveal(TopNMetricSpecView::decode);
    }

    /// Decoding the document of a valid ranking gives the ranking back.
    pub proof fn lemma_round_trip(self)
        requires
            self.valid(),
        ensures
            TopNMetricSpecView::decode(self.encode()) == Some(self),
            !(self.encode() is Null),
    {
        reveal(TopNMetricSpecView::encode);
        reveal(TopNMetricSpecView::decode);
    }
}

impl TopNMetricSpec {
    /// Whether the discriminator fits the shape.
    pub fn validate_type(&self) -> (r: bool)
        ensures
            r == self@.type_consistent(),
    {
        match self {
            TopNMetricSpec::Numeric { type_, .. } => *type_ == TopNMetricSpecType::Numeric,
            TopNMetricSpec::Dimension { type_, .. } => *type_ == TopNMetricSpecType::Dimension,
        }
    }

    /// Whether every component that this ranking owns is valid.
    pub fn validate_subcomponents(&self) -> (r: bool)
        ensures
            r == self@.subcomponents_valid(),
    {
        match self {
            _ => true,
        }
    }

    /// Whether this ranking is valid.
    pub fn validate(&self) -> (r: bool)
        ensures
            r == self@.valid(),
    {
        self.validate_type() && self.validate_subcomponents()
    }

    /// Writes this ranking as the document that stands for it on the wire.
    pub fn encode(&self) -> (v: serde_json::Value)
        ensures
            value_model(v) == self@.encode(),
    {
        proof {
            reveal(TopNMetricSpecView::encode);
        }
        let mut members = new_object();
        match self {
            TopNMetricSpec::Numeric { type_, metric } => {
                put_literal(&mut members, Field::Type, type_);
                put_text(&mut members, Field::Metric, metric.as_str());
            },
            TopNMetricSpec::Dimension { type_, ordering, previous_stop } => {
                put_literal(&mut members, Field::Type, type_);
                put_opt_text(&mut members, Field::Collation, ordering);
                put_opt_text(&mut members, Field::PreviousStop, previous_stop);
            },
        }
        object_value(members)
    }

    /// Reads the ranking that a document stands for. Gives `None` where the
    /// document stands for none.
    pub fn decode(v: &serde_json::Value) -> (r: Option<TopNMetricSpec>)
        ensures
            r.deep_view() == TopNMetricSpecView::decode(value_model(*v)),
    {
        proof {
            reveal(TopNMetricSpecView::decode);
        }
        match read_literal::<TopNMetricSpecType>(v, Field::Type)? {
            TopNMetricSpecType::Numeric => Some(TopNMetricSpec::Numeric {
                type_: TopNMetricSpecType::Numeric,
                metric: read_text(v, Field::Metric)?,
            }),
            TopNMetricSpecType::Dimension => Some(TopNMetricSpec::Dimension {
                type_: TopNMetricSpecType::Dimension,
                ordering: read_opt_text(v, Field::Collation)?,
                previous_stop: read_opt_text(v, Field::PreviousStop)?,
            }),
        }
    }

    /// Reads a ranking that must stand under `field`.
    pub fn read(v: &serde_json::Value, field: Field) -> (r: Option<TopNMetricSpec>)
        ensures
            r.deep_view() == TopNMetricSpecView::at(value_model(*v), field),
    {
        let found = member_of(v, field)?;
        TopNMetricSpec::decode(found)
    }

    /// A copy of this ranking.
    pub fn duplicate(&self) -> (r: TopNMetricSpec)
        ensures
            r@ == self@,
    {
        match self {
            TopNMetricSpec::Numeric { type_, metric } => TopNMetricSpec::Numeric {
                type_: *type_,
                metric: metric.clone(),
            },
            TopNMetricSpec::Dimension {
                type_,
                ordering,
                previous_stop,
            } => TopNMetricSpec::Dimension {
                type_: *type_,
                ordering: copy_opt_text(ordering),
                previous_stop: copy_opt_text(previous_stop),
            },
        }
    }
}

impl Clone for TopNMetricSpec {
    fn clone(&self) -> (r: Self)
        ensures
            r@ == self@,
    {
        self.duplicate()
    }
}

} // verus!
