//! Time bucketing.

use vstd::prelude::*;
use crate::json::{
    new_object, no_members, object_value, parse, same_text, value_model, JsonValue, Object,
};
use crate::literal::{encode_literal, lemma_literal_round_trip, outline, Literal};
use crate::wire::{
    copy_opt_texts, lemma_bounded_empty, lemma_bounded_with, lemma_bounded_with_opt,
    lemma_get_empty, lemma_get_put, lemma_get_put_opt, lemma_get_some, lemma_texts_round_trip,
    literal_at, opt_flag, opt_flag_at, opt_texts, opt_texts_at, put_literal, put_opt_flag,
    put_opt_texts, read_literal, read_opt_flag, read_opt_texts, Building, Field,
};

verus! {

broadcast use {
    lemma_bounded_empty,
    lemma_bounded_with,
    lemma_bounded_with_opt,
    lemma_get_empty,
    lemma_get_some,
    lemma_get_put,
    lemma_get_put_opt,
    lemma_literal_round_trip,
    lemma_texts_round_trip,
};

/// The unit of time into which results are bucketed.
#[derive(Debug, Clone, Copy, PartialEq, Eq, Structural)]
pub enum Granularity {
    All,
    Nothing,
    Second,
    Minute,
    FifteenMinute,
    ThirtyMinute,
    Hour,
    Day,
    Week,
    Month,
    Quarter,
    Year,
}

impl Literal for Granularity {
    open spec fn literal(self) -> Seq<char> {
        match self {
            Granularity::All => "all"@,
            Granularity::Nothing => "none"@,
            Granularity::Second => "second"@,
            Granularity::Minute => "minute"@,
            Granularity::FifteenMinute => "fifteen_minute"@,
            Granularity::ThirtyMinute => "thirty_minute"@,
            Granularity::Hour => "hour"@,
            Granularity::Day => "day"@,
            Granularity::Week => "week"@,
            Granularity::Month => "month"@,
            Granularity::Quarter => "quarter"@,
            Granularity::Year => "year"@,
        }
    }

    proof fn lemma_literal_injective(a: Self, b: Self) {
        reveal_strlit("all");
        reveal_strlit("none");
        reveal_strlit("second");
        reveal_strlit("minute");
        reveal_strlit("fifteen_minute");
        reveal_strlit("thirty_minute");
        reveal_strlit("hour");
        reveal_strlit("day");
        reveal_strlit("week");
        reveal_strlit("month");
        reveal_strlit("quarter");
        reveal_strlit("year");
        assert(outline(a.literal()) == outline(b.literal()) ==> a == b);
    }

    fn wire_name(&self) -> (r: &'static str) {
        match self {
            Granularity::All => "all",
            Granularity::Nothing => "none",
            Granularity::Second => "second",
            Granularity::Minute => "minute",
            Granularity::FifteenMinute => "fifteen_minute",
            Granularity::ThirtyMinute => "thirty_minute",
            Granularity::Hour => "hour",
            Granularity::Day => "day",
            Granularity::Week => "week",
            Granularity::Month => "month",
            Granularity::Quarter => "quarter",
            Granularity::Year => "year",
        }
    }

    fn parse(text: &str) -> (r: Option<Self>) {
        if same_text(text, "all") {
            Some(Granularity::All)
        } else if same_text(text, "none") {
            Some(Granularity::Nothing)
        } else if same_text(text, "second") {
            Some(Granularity::Second)
        } else if same_text(text, "minute") {
            Some(Granularity::Minute)
        } else if same_text(text, "fifteen_minute") {
            Some(Granularity::FifteenMinute)
        } else if same_text(text, "thirty_minute") {
            Some(Granularity::ThirtyMinute)
        } else if same_text(text, "hour") {
            Some(Granularity::Hour)
        } else if same_text(text, "day") {
            Some(Granularity::Day)
        } else if same_text(text, "week") {
            Some(Granularity::Week)
        } else if same_text(text, "month") {
            Some(Granularity::Month)
        } else if same_text(text, "quarter") {
            Some(Granularity::Quarter)
        } else if same_text(text, "year") {
            Some(Granularity::Year)
        } else {
            None
        }
    }
}

/// Discriminator of a granularity description.
#[derive(Debug, Clone, Copy, PartialEq, Eq, Structural)]
pub enum GranularitySpecType {
    GranularitySpec,
}

impl Literal for GranularitySpecType {
    open spec fn literal(self) -> Seq<char> {
        match self {
            GranularitySpecType::GranularitySpec => "granularitySpec"@,
        }
    }

    proof fn lemma_literal_injective(a: Self, b: Self) {
    }

    fn wire_name(&self) -> (r: &'static str) {
        match self {
            GranularitySpecType::GranularitySpec => "granularitySpec",
        }
    }

    fn parse(text: &str) -> (r: Option<Self>) {
        if same_text(text, "granularitySpec") {
            Some(GranularitySpecType::GranularitySpec)
        } else {
            None
        }
    }
}

/// How the rows of a data source are bucketed in time.
#[derive(Debug, PartialEq, Eq)]
pub struct GranularitySpec {
    pub type_: GranularitySpecType,
    pub segment_granularity: Granularity,
    pub query_granularity: Granularity,
    pub rollup: Option<bool>,
    pub intervals: Option<Vec<String>>,
}

/// What a granularity description holds, as mathematics sees it.
pub struct GranularitySpecView {
    pub type_: GranularitySpecType,
    pub segment_granularity: Granularity,
    pub query_granularity: Granularity,
    pub rollup: Option<bool>,
    pub intervals: Option<Seq<Seq<char>>>,
}

impl GranularitySpec {
    /// What this granularity description holds.
    pub open spec fn model(&self) -> GranularitySpecView {
        GranularitySpecView {
            type_: self.type_,
            segment_granularity: self.segment_granularity,
            query_granularity: self.query_granularity,
            rollup: self.rollup,
            intervals: self.intervals.deep_view(),
        }
    }
}

impl View for GranularitySpec {
    type V = GranularitySpecView;

    open spec fn view(&self) -> GranularitySpecView {
        self.model()
    }
}

impl DeepView for GranularitySpec {
    type V = GranularitySpecView;

    open spec fn deep_view(&self) -> GranularitySpecView {
        self.model()
    }
}

impl GranularitySpecView {
    /// Whether the discriminator is the one that a granularity description
    /// carries. There is only one, so it always is.
    pub open spec fn type_consistent(self) -> bool {
        self.type_ == GranularitySpecType::GranularitySpec
    }

    /// Whether every component that this granularity description owns is valid.
    pub open spec fn subcomponents_valid(self) -> bool {
        true
    }

    /// Whether this granularity description is valid: its discriminator fits
    /// its shape, and every component it owns is valid.
    pub open spec fn valid(self) -> bool {
        self.type_consistent() && self.subcomponents_valid()
    }

    /// The document that stands for this granularity description on the wire.
    #[verifier::opaque]
    pub open spec fn encode(self) -> JsonValue {
        JsonValue::Object(
            no_members()
                .with(Field::Type, encode_literal(self.type_))
                .with(Field::SegmentGranularity, encode_literal(self.segment_granularity))
                .with(Field::QueryGranularity, encode_literal(self.query_granularity))
                .with_opt(Field::Rollup, opt_flag(self.rollup))
                .with_opt(Field::Intervals, opt_texts(self.intervals)),
        )
    }

    /// The granularity description that a document stands for, if it stands for
    /// one. Members that a granularity description does not have are passed
    /// over.
    #[verifier::opaque]
    pub open spec fn decode(doc: JsonValue) -> Option<GranularitySpecView> {
        match literal_at::<GranularitySpecType>(doc, Field::Type) {
            Some(type_) => match (
                literal_at::<Granularity>(doc, Field::SegmentGranularity),
                literal_at::<Granularity>(doc, Field::QueryGranularity),
                opt_flag_at(doc, Field::Rollup),
                opt_texts_at(doc, Field::Intervals),
            ) {
                (
                    Some(segment_granularity),
                    Some(query_granularity),
                    Some(rollup),
                    Some(intervals),
                ) => {
                    Some(GranularitySpecView {
                        type_,
                        segment_granularity,
                        query_granularity,
                        rollup,
                        intervals,
                    })
                },
                _ => None,
            },
            None => None,
        }
    }

    /// Whatever document it is read from, a decoded granularity description is
    /// valid: decoding lets no mistagged value through.
    pub proof fn lemma_decoded_valid(doc: JsonValue)
        ensures
            GranularitySpecView::decode(doc) matches Some(x) ==> x.valid(),
    {
        reveal(GranularitySpecView::decode);
    }

    /// Decoding the document of a valid granularity description gives the
    /// granularity description back.
    pub proof fn lemma_round_trip(self)
        requires
            self.valid(),
        ensures
            GranularitySpecView::decode(self.encode()) == Some(self),
            !(self.encode() is Null),
    {
        reveal(GranularitySpecView::encode);
        reveal(GranularitySpecView::decode);
    }
}

impl GranularitySpec {
    /// Whether the discriminator fits the shape.
    pub fn validate_type(&self) -> (r: bool)
        ensures
            r == self@.type_consistent(),
    {
        match self.type_ {
            GranularitySpecType::GranularitySpec => true,
        }
    }

    /// Whether every component that this granularity description owns is valid.
    pub fn validate_subcomponents(&self) -> (r: bool)
        ensures
            r == self@.subcomponents_valid(),
    {
        true
    }

    /// Whether this granularity description is valid.
    pub fn validate(&self) -> (r: bool)
        ensures
            r == self@.valid(),
    {
        self.validate_type() && self.validate_subcomponents()
    }

    /// Writes this granularity description as the document that stands for it
    /// on the wire.
    pub fn encode(&self) -> (v: serde_json::Value)
        ensures
            value_model(v) == self@.encode(),
    {
        proof {
            reveal(GranularitySpecView::encode);
        }
        let mut members = new_object();
        put_literal(&mut members, Field::Type, &self.type_);
        put_literal(&mut members, Field::SegmentGranularity, &self.segment_granularity);
        put_literal(&mut members, Field::QueryGranularity, &self.query_granularity);
        put_opt_flag(&mut members, Field::Rollup, self.rollup);
        put_opt_texts(&mut members, Field::Intervals, &self.intervals);
        object_value(members)
    }

    /// Reads the granularity description that a document stands for. Gives
    /// `None` where the document stands for none.
    pub fn decode(v: &serde_json::Value) -> (r: Option<GranularitySpec>)
        ensures
            r.deep_view() == GranularitySpecView::decode(value_model(*v)),
    {
        proof {
            reveal(GranularitySpecView::decode);
        }
        let type_ = read_literal::<GranularitySpecType>(v, Field::Type)?;
        Some(GranularitySpec {
            type_,
            segment_granularity: read_literal::<Granularity>(v, Field::SegmentGranularity)?,
            query_granularity: read_literal::<Granularity>(v, Field::QueryGranularity)?,
            rollup: read_opt_flag(v, Field::Rollup)?,
            intervals: read_opt_texts(v, Field::Intervals)?,
        })
    }

    /// A copy of this granularity description.
    pub fn duplicate(&self) -> (r: GranularitySpec)
        ensures
            r@ == self@,
    {
        GranularitySpec {
            type_: self.type_,
            segment_granularity: self.segment_granularity,
            query_granularity: self.query_granularity,
            rollup: self.rollup,
            intervals: copy_opt_texts(&self.intervals),
        }
    }
}

impl Clone for GranularitySpec {
    fn clone(&self) -> (r: Self)
        ensures
            r@ == self@,
    {
        self.duplicate()
    }
}

} // verus!
