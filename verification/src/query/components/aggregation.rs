//! Aggregations and the values computed from their results.

use vstd::prelude::*;
use crate::json::{
    array_value, map_model, new_object, no_members, object_value, parse, same_text, value_model,
    value_models, JsonValue, Object,
};
use crate::literal::{encode_literal, lemma_literal_round_trip, outline, Literal};
use crate::query::components::filter::{Filter, FilterView};
use crate::wire::{
    copy_opt_text, copy_texts, get, lemma_bounded_empty, lemma_bounded_with,
    lemma_bounded_with_opt, lemma_get_empty, lemma_get_put, lemma_get_put_opt, lemma_get_some,
    lemma_texts_round_trip, literal_at, member_of, opt_text, opt_text_at, put_literal,
    put_opt_text, put_opt_value, put_text, put_texts, put_value, read_literal, read_opt_text,
    read_text, read_texts, text, text_at, texts, texts_at, Building, Field,
};

verus! {

broadcast use {
    lemma_bounded_empty,
    lemma_bounded_with,
    lemma_bounded_with_opt,
    lemma_get_empty,
    lemma_get_some,
    lemma_get_put,
    lemma_get_put_opt,
    lemma_literal_round_trip,
    lemma_texts_round_trip,
};

/// Discriminator of an aggregation.
#[derive(Debug, Clone, Copy, PartialEq, Eq, Structural)]
pub enum AggregationType {
    Count,
    DoubleSum,
    LongSum,
    FloatSum,
    DoubleMax,
    LongMax,
    FloatMax,
    DoubleMin,
    LongMin,
    FloatMin,
    DoubleMean,
    DoubleFirst,
    LongFirst,
    FloatFirst,
    DoubleLast,
    LongLast,
    FloatLast,
    DoubleAny,
    LongAny,
    FloatAny,
    StringAny,
    JavaScript,
    Filtered,
    Grouping,
}

impl Literal for AggregationType {
    open spec fn literal(self) -> Seq<char> {
        match self {
            AggregationType::Count => "count"@,
            AggregationType::DoubleSum => "doubleSum"@,
            AggregationType::LongSum => "longSum"@,
            AggregationType::FloatSum => "floatSum"@,
            AggregationType::DoubleMax => "doubleMax"@,
            AggregationType::LongMax => "longMax"@,
            AggregationType::FloatMax => "floatMax"@,
            AggregationType::DoubleMin => "doubleMin"@,
            AggregationType::LongMin => "longMin"@,
            AggregationType::FloatMin => "floatMin"@,
            AggregationType::DoubleMean => "doubleMean"@,
            AggregationType::DoubleFirst => "doubleFirst"@,
            AggregationType::LongFirst => "longFirst"@,
            AggregationType::FloatFirst => "floatFirst"@,
            AggregationType::DoubleLast => "doubleLast"@,
            AggregationType::LongLast => "longLast"@,
            AggregationType::FloatLast => "floatLast"@,
            AggregationType::DoubleAny => "doubleAny"@,
            AggregationType::LongAny => "longAny"@,
            AggregationType::FloatAny => "floatAny"@,
            AggregationType::StringAny => "stringAny"@,
            AggregationType::JavaScript => "javaScript"@,
            AggregationType::Filtered => "filtered"@,
            AggregationType::Grouping => "grouping"@,
        }
    }

    proof fn lemma_literal_injective(a: Self, b: Self) {
        reveal_strlit("count");
        reveal_strlit("doubleSum");
        reveal_strlit("longSum");
        reveal_strlit("floatSum");
        reveal_strlit("doubleMax");
        reveal_strlit("longMax");
        reveal_strlit("floatMax");
        reveal_strlit("doubleMin");
        reveal_strlit("longMin");
        reveal_strlit("floatMin");
        reveal_strlit("doubleMean");
        reveal_strlit("doubleFirst");
        reveal_strlit("longFirst");
        reveal_strlit("floatFirst");
        reveal_strlit("doubleLast");
        reveal_strlit("longLast");
        reveal_strlit("floatLast");
        reveal_strlit("doubleAny");
        reveal_strlit("longAny");
        reveal_strlit("floatAny");
        reveal_strlit("stringAny");
        reveal_strlit("javaScript");
        reveal_strlit("filtered");
        reveal_strlit("grouping");
        assert(outline(a.literal()) == outline(b.literal()) ==> a == b);
    }

    fn wire_name(&self) -> (r: &'static str) {
        match self {
            AggregationType::Count => "count",
            AggregationType::DoubleSum => "doubleSum",
            AggregationType::LongSum => "longSum",
            AggregationType::FloatSum => "floatSum",
            AggregationType::DoubleMax => "doubleMax",
            AggregationType::LongMax => "longMax",
            AggregationType::FloatMax => "floatMax",
            AggregationType::DoubleMin => "doubleMin",
            AggregationType::LongMin => "longMin",
            AggregationType::FloatMin => "floatMin",
            AggregationType::DoubleMean => "doubleMean",
            AggregationType::DoubleFirst => "doubleFirst",
            AggregationType::LongFirst => "longFirst",
            AggregationType::FloatFirst => "floatFirst",
            AggregationType::DoubleLast => "doubleLast",
            AggregationType::LongLast => "longLast",
            AggregationType::FloatLast => "floatLast",
            AggregationType::DoubleAny => "doubleAny",
            AggregationType::LongAny => "longAny",
            AggregationType::FloatAny => "floatAny",
            AggregationType::StringAny => "stringAny",
            AggregationType::JavaScript => "javaScript",
            AggregationType::Filtered => "filtered",
            AggregationType::Grouping => "grouping",
        }
    }

    fn parse(text: &str) -> (r: Option<Self>) {
        if same_text(text, "count") {
            Some(AggregationType::Count)
        } else if same_text(text, "doubleSum") {
            Some(AggregationType::DoubleSum)
        } else if same_text(text, "longSum") {
            Some(AggregationType::LongSum)
        } else if same_text(text, "floatSum") {
            Some(AggregationType::FloatSum)
        } else if same_text(text, "doubleMax") {
            Some(AggregationType::DoubleMax)
        } else if same_text(text, "longMax") {
            Some(AggregationType::LongMax)
        } else if same_text(text, "floatMax") {
            Some(AggregationType::FloatMax)
        } else if same_text(text, "doubleMin") {
            Some(AggregationType::DoubleMin)
        } else if same_text(text, "longMin") {
            Some(AggregationType::LongMin)
        } else if same_text(text, "floatMin") {
            Some(AggregationType::FloatMin)
        } else if same_text(text, "doubleMean") {
            Some(AggregationType::DoubleMean)
        } else if same_text(text, "doubleFirst") {
            Some(AggregationType::DoubleFirst)
        } else if same_text(text, "longFirst") {
            Some(AggregationType::LongFirst)
        } else if same_text(text, "floatFirst") {
            Some(AggregationType::FloatFirst)
        } else if same_text(text, "doubleLast") {
            Some(AggregationType::DoubleLast)
        } else if same_text(text, "longLast") {
            Some(AggregationType::LongLast)
        } else if same_text(text, "floatLast") {
            Some(AggregationType::FloatLast)
        } else if same_text(text, "doubleAny") {
            Some(AggregationType::DoubleAny)
        } else if same_text(text, "longAny") {
            Some(AggregationType::LongAny)
        } else if same_text(text, "floatAny") {
            Some(AggregationType::FloatAny)
        } else if same_text(text, "stringAny") {
            Some(AggregationType::StringAny)
        } else if same_text(text, "javaScript") {
            Some(AggregationType::JavaScript)
        } else if same_text(text, "filtered") {
            Some(AggregationType::Filtered)
        } else if same_text(text, "grouping") {
            Some(AggregationType::Grouping)
        } else {
            None
        }
    }
}

/// Discriminator of a post-aggregation.
#[derive(Debug, Clone, Copy, PartialEq, Eq, Structural)]
pub enum PostAggregationType {
    Arithmetic,
    Constant,
    JavaScript,
    HyperUniqueCardinality,
    FieldAccess,
    FinalizingFieldAccess,
    DoubleGreatest,
    LongGreatest,
    DoubleLeast,
    LongLeast,
}

impl Literal for PostAggregationType {
    open spec fn literal(self) -> Seq<char> {
        match self {
            PostAggregationType::Arithmetic => "arithmetic"@,
            PostAggregationType::Constant => "constant"@,
            PostAggregationType::JavaScript => "javaScript"@,
            PostAggregationType::HyperUniqueCardinality => "hyperUniqueCardinality"@,
            PostAggregationType::FieldAccess => "fieldAccess"@,
            PostAggregationType::FinalizingFieldAccess => "finalizingFieldAccess"@,
            PostAggregationType::DoubleGreatest => "doubleGreatest"@,
            PostAggregationType::LongGreatest => "longGreatest"@,
            PostAggregationType::DoubleLeast => "doubleLeast"@,
            PostAggregationType::LongLeast => "longLeast"@,
        }
    }

    proof fn lemma_literal_injective(a: Self, b: Self) {
        reveal_strlit("arithmetic");
        reveal_strlit("constant");
        reveal_strlit("javaScript");
        reveal_strlit("hyperUniqueCardinality");
        reveal_strlit("fieldAccess");
        reveal_strlit("finalizingFieldAccess");
        reveal_strlit("doubleGreatest");
        reveal_strlit("longGreatest");
        reveal_strlit("doubleLeast");
        reveal_strlit("longLeast");
        assert(outline(a.literal()) == outline(b.literal()) ==> a == b);
    }

    fn wire_name(&self) -> (r: &'static str) {
        match self {
            PostAggregationType::Arithmetic => "arithmetic",
            PostAggregationType::Constant => "constant",
            PostAggregationType::JavaScript => "javaScript",
            PostAggregationType::HyperUniqueCardinality => "hyperUniqueCardinality",
            PostAggregationType::FieldAccess => "fieldAccess",
            PostAggregationType::FinalizingFieldAccess => "finalizingFieldAccess",
            PostAggregationType::DoubleGreatest => "doubleGreatest",
            PostAggregationType::LongGreatest => "longGreatest",
            PostAggregationType::DoubleLeast => "doubleLeast",
            PostAggregationType::LongLeast => "longLeast",
        }
    }

    fn parse(text: &str) -> (r: Option<Self>) {
        if same_text(text, "arithmetic") {
            Some(PostAggregationType::Arithmetic)
        } else if same_text(text, "constant") {
            Some(PostAggregationType::Constant)
        } else if same_text(text, "javaScript") {
            Some(PostAggregationType::JavaScript)
        } else if same_text(text, "hyperUniqueCardinality") {
            Some(PostAggregationType::HyperUniqueCardinality)
        } else if same_text(text, "fieldAccess") {
            Some(PostAggregationType::FieldAccess)
        } else if same_text(text, "finalizingFieldAccess") {
            Some(PostAggregationType::FinalizingFieldAccess)
        } else if same_text(text, "doubleGreatest") {
            Some(PostAggregationType::DoubleGreatest)
        } else if same_text(text, "longGreatest") {
            Some(PostAggregationType::LongGreatest)
        } else if same_text(text, "doubleLeast") {
            Some(PostAggregationType::DoubleLeast)
        } else if same_text(text, "longLeast") {
            Some(PostAggregationType::LongLeast)
        } else {
            None
        }
    }
}

/// A reduction over the rows of each group.
#[derive(Debug, PartialEq, Eq)]
pub enum Aggregation {
    /// The number of rows.
    Count {
        name: String,
    },
    /// The sum of a column's values, read as double.
    DoubleSum {
        name: String,
        field_name: String,
    },
    /// The sum of a column's values, read as long.
    LongSum {
        name: String,
        field_name: String,
    },
    /// The sum of a column's values, read as float.
    FloatSum {
        name: String,
        field_name: String,
    },
    /// The largest of a column's values, read as double.
    DoubleMax {
        name: String,
        field_name: String,
    },
    /// The largest of a column's values, read as long.
    LongMax {
        name: String,
        field_name: String,
    },
    /// The largest of a column's values, read as float.
    FloatMax {
        name: String,
        field_name: String,
    },
    /// The smallest of a column's values, read as double.
    DoubleMin {
        name: String,
        field_name: String,
    },
    /// The smallest of a column's values, read as long.
    LongMin {
        name: String,
        field_name: String,
    },
    /// The smallest of a column's values, read as float.
    FloatMin {
        name: String,
        field_name: String,
    },
    /// The mean of a column's values, read as double.
    DoubleMean {
        name: String,
        field_name: String,
    },
    /// The earliest of a column's values, read as double.
    DoubleFirst {
        name: String,
        field_name: String,
    },
    /// The earliest of a column's values, read as long.
    LongFirst {
        name: String,
        field_name: String,
    },
    /// The earliest of a column's values, read as float.
    FloatFirst {
        name: String,
        field_name: String,
    },
    /// The latest of a column's values, read as double.
    DoubleLast {
        name: String,
        field_name: String,
    },
    /// The latest of a column's values, read as long.
    LongLast {
        name: String,
        field_name: String,
    },
    /// The latest of a column's values, read as float.
    FloatLast {
        name: String,
        field_name: String,
    },
    /// Any one of a column's values, read as double.
    DoubleAny {
        name: String,
        field_name: String,
    },
    /// Any one of a column's values, read as long.
    LongAny {
        name: String,
        field_name: String,
    },
    /// Any one of a column's values, read as float.
    FloatAny {
        name: String,
        field_name: String,
    },
    /// Any one of a column's values, read as string.
    StringAny {
        name: String,
        field_name: String,
    },
    /// An aggregation given by three JavaScript functions.
    JavaScript {
        name: String,
        field_names: Vec<String>,
        fn_aggregate: String,
        fn_combine: String,
        fn_reset: String,
    },
    /// Another aggregation, over the rows that pass a filter.
    Filtered {
        filter: Filter,
        aggregator: Box<Aggregation>,
    },
    /// Which of the dimensions listed a result row is grouped by.
    Grouping {
        name: String,
        groupings: Vec<String>,
    },
}

/// What an aggregation holds, as mathematics sees it.
pub enum AggregationView {
    Count {
        name: Seq<char>,
    },
    DoubleSum {
        name: Seq<char>,
        field_name: Seq<char>,
    },
    LongSum {
        name: Seq<char>,
        field_name: Seq<char>,
    },
    FloatSum {
        name: Seq<char>,
        field_name: Seq<char>,
    },
    DoubleMax {
        name: Seq<char>,
        field_name: Seq<char>,
    },
    LongMax {
        name: Seq<char>,
        field_name: Seq<char>,
    },
    FloatMax {
        name: Seq<char>,
        field_name: Seq<char>,
    },
    DoubleMin {
        name: Seq<char>,
        field_name: Seq<char>,
    },
    LongMin {
        name: Seq<char>,
        field_name: Seq<char>,
    },
    FloatMin {
        name: Seq<char>,
        field_name: Seq<char>,
    },
    DoubleMean {
        name: Seq<char>,
        field_name: Seq<char>,
    },
    DoubleFirst {
        name: Seq<char>,
        field_name: Seq<char>,
    },
    LongFirst {
        name: Seq<char>,
        field_name: Seq<char>,
    },
    FloatFirst {
        name: Seq<char>,
        field_name: Seq<char>,
    },
    DoubleLast {
        name: Seq<char>,
        field_name: Seq<char>,
    },
    LongLast {
        name: Seq<char>,
        field_name: Seq<char>,
    },
    FloatLast {
        name: Seq<char>,
        field_name: Seq<char>,
    },
    DoubleAny {
        name: Seq<char>,
        field_name: Seq<char>,
    },
    LongAny {
        name: Seq<char>,
        field_name: Seq<char>,
    },
    FloatAny {
        name: Seq<char>,
        field_name: Seq<char>,
    },
    StringAny {
        name: Seq<char>,
        field_name: Seq<char>,
    },
    JavaScript {
        name: Seq<char>,
        field_names: Seq<Seq<char>>,
        fn_aggregate: Seq<char>,
        fn_combine: Seq<char>,
        fn_reset: Seq<char>,
    },
    Filtered {
        filter: FilterView,
        aggregator: Box<AggregationView>,
    },
    Grouping {
        name: Seq<char>,
        groupings: Seq<Seq<char>>,
    },
}

impl Aggregation {
    /// What this aggregation holds.
    pub open spec fn model(&self) -> AggregationView
        decreases self,
    {
        match self {
            Aggregation::Count { name } => AggregationView::Count {
                name: name@,
            },
            Aggregation::DoubleSum { name, field_name } => AggregationView::DoubleSum {
                name: name@,
                field_name: field_name@,
            },
            Aggregation::LongSum { name, field_name } => AggregationView::LongSum {
                name: name@,
                field_name: field_name@,
            },
            Aggregation::FloatSum { name, field_name } => AggregationView::FloatSum {
                name: name@,
                field_name: field_name@,
            },
            Aggregation::DoubleMax { name, field_name } => AggregationView::DoubleMax {
                name: name@,
                field_name: field_name@,
            },
            Aggregation::LongMax { name, field_name } => AggregationView::LongMax {
                name: name@,
                field_name: field_name@,
            },
            Aggregation::FloatMax { name, field_name } => AggregationView::FloatMax {
                name: name@,
                field_name: field_name@,
            },
            Aggregation::DoubleMin { name, field_name } => AggregationView::DoubleMin {
                name: name@,
                field_name: field_name@,
            },
            Aggregation::LongMin { name, field_name } => AggregationView::LongMin {
                name: name@,
                field_name: field_name@,
            },
            Aggregation::FloatMin { name, field_name } => AggregationView::FloatMin {
                name: name@,
                field_name: field_name@,
            },
            Aggregation::DoubleMean { name, field_name } => AggregationView::DoubleMean {
                name: name@,
                field_name: field_name@,
            },
            Aggregation::DoubleFirst { name, field_name } => AggregationView::DoubleFirst {
                name: name@,
                field_name: field_name@,
            },
            Aggregation::LongFirst { name, field_name } => AggregationView::LongFirst {
                name: name@,
                field_name: field_name@,
            },
            Aggregation::FloatFirst { name, field_name } => AggregationView::FloatFirst {
                name: name@,
                field_name: field_name@,
            },
            Aggregation::DoubleLast { name, field_name } => AggregationView::DoubleLast {
                name: name@,
                field_name: field_name@,
            },
            Aggregation::LongLast { name, field_name } => AggregationView::LongLast {
                name: name@,
                field_name: field_name@,
            },
            Aggregation::FloatLast { name, field_name } => AggregationView::FloatLast {
                name: name@,
                field_name: field_name@,
            },
            Aggregation::DoubleAny { name, field_name } => AggregationView::DoubleAny {
                name: name@,
                field_name: field_name@,
            },
            Aggregation::LongAny { name, field_name } => AggregationView::LongAny {
                name: name@,
                field_name: field_name@,
            },
            Aggregation::FloatAny { name, field_name } => AggregationView::FloatAny {
                name: name@,
                field_name: field_name@,
            },
            Aggregation::StringAny { name, field_name } => AggregationView::StringAny {
                name: name@,
                field_name: field_name@,
            },
            Aggregation::JavaScript {
                name,
                field_names,
                fn_aggregate,
                fn_combine,
                fn_reset,
            } => AggregationView::JavaScript {
                name: name@,
                field_names: field_names.deep_view(),
                fn_aggregate: fn_aggregate@,
                fn_combine: fn_combine@,
                fn_reset: fn_reset@,
            },
            Aggregation::Filtered { filter, aggregator } => AggregationView::Filtered {
                filter: filter.model(),
                aggregator: Box::new(aggregator.model()),
            },
            Aggregation::Grouping { name, groupings } => AggregationView::Grouping {
                name: name@,
                groupings: groupings.deep_view(),
            },
        }
    }
}

impl View for Aggregation {
    type V = AggregationView;

    open spec fn view(&self) -> AggregationView {
        self.model()
    }
}

impl DeepView for Aggregation {
    type V = AggregationView;

    open spec fn deep_view(&self) -> AggregationView {
        self.model()
    }
}

impl AggregationView {
    /// The discriminator that a aggregation of this shape is meant to carry.
    pub open spec fn expected_type(self) -> AggregationType {
        match self {
            AggregationView::Count { .. } => AggregationType::Count,
            AggregationView::DoubleSum { .. } => AggregationType::DoubleSum,
            AggregationView::LongSum { .. } => AggregationType::LongSum,
            AggregationView::FloatSum { .. } => AggregationType::FloatSum,
            AggregationView::DoubleMax { .. } => AggregationType::DoubleMax,
            AggregationView::LongMax { .. } => AggregationType::LongMax,
            AggregationView::FloatMax { .. } => AggregationType::FloatMax,
            AggregationView::DoubleMin { .. } => AggregationType::DoubleMin,
            AggregationView::LongMin { .. } => AggregationType::LongMin,
            AggregationView::FloatMin { .. } => AggregationType::FloatMin,
            AggregationView::DoubleMean { .. } => AggregationType::DoubleMean,
            AggregationView::DoubleFirst { .. } => AggregationType::DoubleFirst,
            AggregationView::LongFirst { .. } => AggregationType::LongFirst,
            AggregationView::FloatFirst { .. } => AggregationType::FloatFirst,
            AggregationView::DoubleLast { .. } => AggregationType::DoubleLast,
            AggregationView::LongLast { .. } => AggregationType::LongLast,
            AggregationView::FloatLast { .. } => AggregationType::FloatLast,
            AggregationView::DoubleAny { .. } => AggregationType::DoubleAny,
            AggregationView::LongAny { .. } => AggregationType::LongAny,
            AggregationView::FloatAny { .. } => AggregationType::FloatAny,
            AggregationView::StringAny { .. } => AggregationType::StringAny,
            AggregationView::JavaScript { .. } => AggregationType::JavaScript,
            AggregationView::Filtered { .. } => AggregationType::Filtered,
            AggregationView::Grouping { .. } => AggregationType::Grouping,
        }
    }

    /// Whether the discriminator fits the shape. An aggregation carries none of
    /// its own: it travels under the one its shape is meant to carry, so the
    /// two always agree.
    pub open spec fn type_consistent(self) -> bool {
        true
    }

    /// Whether every component that this aggregation owns is valid.
    pub open spec fn subcomponents_valid(self) -> bool
        decreases self, 0nat,
    {
        match self {
            AggregationView::Filtered { filter, aggregator, .. } => {
                &&& filter.valid()
                &&& aggregator.valid()
            },
            _ => true,
        }
    }

    /// Whether this aggregation is valid: its discriminator fits its shape, and
    /// every component it owns is valid.
    pub open spec fn valid(self) -> bool
        decreases self, 1nat,
    {
        self.type_consistent() && self.subcomponents_valid()
    }

    /// Whether an aggregation that may be absent is valid: an absent one is.
    pub open spec fn opt_valid(x: Option<AggregationView>) -> bool {
        match x {
            Some(present) => present.valid(),
            None => true,
        }
    }

    /// The document that stands for this aggregation on the wire.
    #[verifier::opaque]
    pub open spec fn encode(self) -> JsonValue
        decreases self, 0nat,
    {
        match self {
            AggregationView::Count { name } => JsonValue::Object(
                no_members()
                    .with(Field::Type, encode_literal(AggregationType::Count))
                    .with(Field::Name, text(name)),
            ),
            AggregationView::DoubleSum { name, field_name } => JsonValue::Object(
                no_members()
                    .with(Field::Type, encode_literal(AggregationType::DoubleSum))
                    .with(Field::Name, text(name))
                    .with(Field::FieldName, text(field_name)),
            ),
            AggregationView::LongSum { name, field_name } => JsonValue::Object(
                no_members()
                    .with(Field::Type, encode_literal(AggregationType::LongSum))
                    .with(Field::Name, text(name))
                    .with(Field::FieldName, text(field_name)),
            ),
            AggregationView::FloatSum { name, field_name } => JsonValue::Object(
                no_members()
                    .with(Field::Type, encode_literal(AggregationType::FloatSum))
                    .with(Field::Name, text(name))
                    .with(Field::FieldName, text(field_name)),
            ),
            AggregationView::DoubleMax { name, field_name } => JsonValue::Object(
                no_members()
                    .with(Field::Type, encode_literal(AggregationType::DoubleMax))
                    .with(Field::Name, text(name))
                    .with(Field::FieldName, text(field_name)),
            ),
            AggregationView::LongMax { name, field_name } => JsonValue::Object(
                no_members()
                    .with(Field::Type, encode_literal(AggregationType::LongMax))
                    .with(Field::Name, text(name))
                    .with(Field::FieldName, text(field_name)),
            ),
            AggregationView::FloatMax { name, field_name } => JsonValue::Object(
                no_members()
                    .with(Field::Type, encode_literal(AggregationType::FloatMax))
                    .with(Field::Name, text(name))
                    .with(Field::FieldName, text(field_name)),
            ),
            AggregationView::DoubleMin { name, field_name } => JsonValue::Object(
                no_members()
                    .with(Field::Type, encode_literal(AggregationType::DoubleMin))
                    .with(Field::Name, text(name))
                    .with(Field::FieldName, text(field_name)),
            ),
            AggregationView::LongMin { name, field_name } => JsonValue::Object(
                no_members()
                    .with(Field::Type, encode_literal(AggregationType::LongMin))
                    .with(Field::Name, text(name))
                    .with(Field::FieldName, text(field_name)),
            ),
            AggregationView::FloatMin { name, field_name } => JsonValue::Object(
                no_members()
                    .with(Field::Type, encode_literal(AggregationType::FloatMin))
                    .with(Field::Name, text(name))
                    .with(Field::FieldName, text(field_name)),
            ),
            AggregationView::DoubleMean { name, field_name } => JsonValue::Object(
                no_members()
                    .with(Field::Type, encode_literal(AggregationType::DoubleMean))
                    .with(Field::Name, text(name))
                    .with(Field::FieldName, text(field_name)),
            ),
            AggregationView::DoubleFirst { name, field_name } => JsonValue::Object(
                no_members()
                    .with(Field::Type, encode_literal(AggregationType::DoubleFirst))
                    .with(Field::Name, text(name))
                    .with(Field::FieldName, text(field_name)),
            ),
            AggregationView::LongFirst { name, field_name } => JsonValue::Object(
                no_members()
                    .with(Field::Type, encode_literal(AggregationType::LongFirst))
                    .with(Field::Name, text(name))
                    .with(Field::FieldName, text(field_name)),
            ),
            AggregationView::FloatFirst { name, field_name } => JsonValue::Object(
                no_members()
                    .with(Field::Type, encode_literal(AggregationType::FloatFirst))
                    .with(Field::Name, text(name))
                    .with(Field::FieldName, text(field_name)),
            ),
            AggregationView::DoubleLast { name, field_name } => JsonValue::Object(
                no_members()
                    .with(Field::Type, encode_literal(AggregationType::DoubleLast))
                    .with(Field::Name, text(name))
                    .with(Field::FieldName, text(field_name)),
            ),
            AggregationView::LongLast { name, field_name } => JsonValue::Object(
                no_members()
                    .with(Field::Type, encode_literal(AggregationType::LongLast))
                    .with(Field::Name, text(name))
                    .with(Field::FieldName, text(field_name)),
            ),
            AggregationView::FloatLast { name, field_name } => JsonValue::Object(
                no_members()
                    .with(Field::Type, encode_literal(AggregationType::FloatLast))
                    .with(Field::Name, text(name))
                    .with(Field::FieldName, text(field_name)),
            ),
            AggregationView::DoubleAny { name, field_name } => JsonValue::Object(
                no_members()
                    .with(Field::Type, encode_literal(AggregationType::DoubleAny))
                    .with(Field::Name, text(name))
                    .with(Field::FieldName, text(field_name)),
            ),
            AggregationView::LongAny { name, field_name } => JsonValue::Object(
                no_members()
                    .with(Field::Type, encode_literal(AggregationType::LongAny))
                    .with(Field::Name, text(name))
                    .with(Field::FieldName, text(field_name)),
            ),
            AggregationView::FloatAny { name, field_name } => JsonValue::Object(
                no_members()
                    .with(Field::Type, encode_literal(AggregationType::FloatAny))
                    .with(Field::Name, text(name))
                    .with(Field::FieldName, text(field_name)),
            ),
            AggregationView::StringAny { name, field_name } => JsonValue::Object(
                no_members()
                    .with(Field::Type, encode_literal(AggregationType::StringAny))
                    .with(Field::Name, text(name))
                    .with(Field::FieldName, text(field_name)),
            ),
            AggregationView::JavaScript {
                name,
                field_names,
                fn_aggregate,
                fn_combine,
                fn_reset,
            } => JsonValue::Object(
                no_members()
                    .with(Field::Type, encode_literal(AggregationType::JavaScript))
                    .with(Field::Name, text(name))
                    .with(Field::FieldNames, texts(field_names))
                    .with(Field::FnAggregate, text(fn_aggregate))
                    .with(Field::FnCombine, text(fn_combine))
                    .with(Field::FnReset, text(fn_reset)),
            ),
            AggregationView::Filtered { filter, aggregator } => JsonValue::Object(
                no_members()
                    .with(Field::Type, encode_literal(AggregationType::Filtered))
                    .with(Field::Filter, filter.encode())
                    .with(Field::Aggregator, aggregator.encode()),
            ),
            AggregationView::Grouping { name, groupings } => JsonValue::Object(
                no_members()
                    .with(Field::Type, encode_literal(AggregationType::Grouping))
                    .with(Field::Name, text(name))
                    .with(Field::Groupings, texts(groupings)),
            ),
        }
    }

    /// The document of an aggregation that may be absent.
    pub open spec fn encode_opt(x: Option<AggregationView>) -> Option<JsonValue> {
        match x {
            Some(present) => Some(present.encode()),
            None => None,
        }
    }

    /// The aggregation that a document stands for, if it stands for one.
    /// Members that an aggregation does not have are passed over.
    #[verifier::opaque]
    pub open spec fn decode(doc: JsonValue) -> Option<AggregationView>
        decreases doc, 1nat,
    {
        match literal_at::<AggregationType>(doc, Field::Type) {
            Some(AggregationType::Count) => match text_at(doc, Field::Name) {
                Some(name) => Some(AggregationView::Count { name }),
                None => None,
            },
            Some(AggregationType::DoubleSum) => match (
                text_at(doc, Field::Name),
                text_at(doc, Field::FieldName),
            ) {
                (Some(name), Some(field_name)) => {
                    Some(AggregationView::DoubleSum { name, field_name })
                },
                _ => None,
            },
            Some(AggregationType::LongSum) => match (
                text_at(doc, Field::Name),
                text_at(doc, Field::FieldName),
            ) {
                (
                    Some(name),
                    Some(field_name),
                ) => Some(AggregationView::LongSum { name, field_name }),
                _ => None,
            },
            Some(AggregationType::FloatSum) => match (
                text_at(doc, Field::Name),
                text_at(doc, Field::FieldName),
            ) {
                (
                    Some(name),
                    Some(field_name),
                ) => Some(AggregationView::FloatSum { name, field_name }),
                _ => None,
            },
            Some(AggregationType::DoubleMax) => match (
                text_at(doc, Field::Name),
                text_at(doc, Field::FieldName),
            ) {
                (Some(name), Some(field_name)) => {
                    Some(AggregationView::DoubleMax { name, field_name })
                },
                _ => None,
            },
            Some(AggregationType::LongMax) => match (
                text_at(doc, Field::Name),
                text_at(doc, Field::FieldName),
            ) {
                (
                    Some(name),
                    Some(field_name),
                ) => Some(AggregationView::LongMax { name, field_name }),
                _ => None,
            },
            Some(AggregationType::FloatMax) => match (
                text_at(doc, Field::Name),
                text_at(doc, Field::FieldName),
            ) {
                (
                    Some(name),
                    Some(field_name),
                ) => Some(AggregationView::FloatMax { name, field_name }),
                _ => None,
            },
            Some(AggregationType::DoubleMin) => match (
                text_at(doc, Field::Name),
                text_at(doc, Field::FieldName),
            ) {
                (Some(name), Some(field_name)) => {
                    Some(AggregationView::DoubleMin { name, field_name })
                },
                _ => None,
            },
            Some(AggregationType::LongMin) => match (
                text_at(doc, Field::Name),
                text_at(doc, Field::FieldName),
            ) {
                (
                    Some(name),
                    Some(field_name),
                ) => Some(AggregationView::LongMin { name, field_name }),
                _ => None,
            },
            Some(AggregationType::FloatMin) => match (
                text_at(doc, Field::Name),
                text_at(doc, Field::FieldName),
            ) {
                (
                    Some(name),
                    Some(field_name),
                ) => Some(AggregationView::FloatMin { name, field_name }),
                _ => None,
            },
            Some(AggregationType::DoubleMean) => match (
                text_at(doc, Field::Name),
                text_at(doc, Field::FieldName),
            ) {
                (Some(name), Some(field_name)) => {
                    Some(AggregationView::DoubleMean { name, field_name })
                },
                _ => None,
            },
            Some(AggregationType::DoubleFirst) => match (
                text_at(doc, Field::Name),
                text_at(doc, Field::FieldName),
            ) {
                (Some(name), Some(field_name)) => {
                    Some(AggregationView::DoubleFirst { name, field_name })
                },
                _ => None,
            },
            Some(AggregationType::LongFirst) => match (
                text_at(doc, Field::Name),
                text_at(doc, Field::FieldName),
            ) {
                (Some(name), Some(field_name)) => {
                    Some(AggregationView::LongFirst { name, field_name })
                },
                _ => None,
            },
            Some(AggregationType::FloatFirst) => match (
                text_at(doc, Field::Name),
                text_at(doc, Field::FieldName),
            ) {
                (Some(name), Some(field_name)) => {
                    Some(AggregationView::FloatFirst { name, field_name })
                },
                _ => None,
            },
            Some(AggregationType::DoubleLast) => match (
                text_at(doc, Field::Name),
                text_at(doc, Field::FieldName),
            ) {
                (Some(name), Some(field_name)) => {
                    Some(AggregationView::DoubleLast { name, field_name })
                },
                _ => None,
            },
            Some(AggregationType::LongLast) => match (
                text_at(doc, Field::Name),
                text_at(doc, Field::FieldName),
            ) {
                (
                    Some(name),
                    Some(field_name),
                ) => Some(AggregationView::LongLast { name, field_name }),
                _ => None,
            },
            Some(AggregationType::FloatLast) => match (
                text_at(doc, Field::Name),
                text_at(doc, Field::FieldName),
            ) {
                (Some(name), Some(field_name)) => {
                    Some(AggregationView::FloatLast { name, field_name })
                },
                _ => None,
            },
            Some(AggregationType::DoubleAny) => match (
                text_at(doc, Field::Name),
                text_at(doc, Field::FieldName),
            ) {
                (Some(name), Some(field_name)) => {
                    Some(AggregationView::DoubleAny { name, field_name })
                },
                _ => None,
            },
            Some(AggregationType::LongAny) => match (
                text_at(doc, Field::Name),
                text_at(doc, Field::FieldName),
            ) {
                (
                    Some(name),
                    Some(field_name),
                ) => Some(AggregationView::LongAny { name, field_name }),
                _ => None,
            },
            Some(AggregationType::FloatAny) => match (
                text_at(doc, Field::Name),
                text_at(doc, Field::FieldName),
            ) {
                (
                    Some(name),
                    Some(field_name),
                ) => Some(AggregationView::FloatAny { name, field_name }),
                _ => None,
            },
            Some(AggregationType::StringAny) => match (
                text_at(doc, Field::Name),
                text_at(doc, Field::FieldName),
            ) {
                (Some(name), Some(field_name)) => {
                    Some(AggregationView::StringAny { name, field_name })
                },
                _ => None,
            },
            Some(AggregationType::JavaScript) => match (
                text_at(doc, Field::Name),
                texts_at(doc, Field::FieldNames),
                text_at(doc, Field::FnAggregate),
                text_at(doc, Field::FnCombine),
                text_at(doc, Field::FnReset),
            ) {
                (
                    Some(name),
                    Some(field_names),
                    Some(fn_aggregate),
                    Some(fn_combine),
                    Some(fn_reset),
                ) => {
                    Some(AggregationView::JavaScript {
                        name,
                        field_names,
                        fn_aggregate,
                        fn_combine,
                        fn_reset,
                    })
                },
                _ => None,
            },
            Some(AggregationType::Filtered) => match (
                FilterView::at(doc, Field::Filter),
                AggregationView::at(doc, Field::Aggregator),
            ) {
                (Some(filter), Some(aggregator)) => {
                    Some(AggregationView::Filtered { filter, aggregator: Box::new(aggregator) })
                },
                _ => None,
            },
            Some(AggregationType::Grouping) => match (
                text_at(doc, Field::Name),
                texts_at(doc, Field::Groupings),
            ) {
                (
                    Some(name),
                    Some(groupings),
                ) => Some(AggregationView::Grouping { name, groupings }),
                _ => None,
            },
            None => None,
        }
    }

    /// The aggregation that a document must hold under `field`.
    pub open spec fn at(doc: JsonValue, field: Field) -> Option<AggregationView>
        decreases doc, 0nat,
    {
        match get(doc, field) {
            Some(found) => AggregationView::decode(found),
            None => None,
        }
    }

    /// The aggregation that a document may hold under `field`: the outer `None`
    /// says that the member is there and stands for none.
    pub open spec fn opt_at(doc: JsonValue, field: Field) -> Option<Option<AggregationView>> {
        match get(doc, field) {
            Some(found) => match AggregationView::decode(found) {
                Some(present) => Some(Some(present)),
                None => None,
            },
            None => Some(None),
        }
    }

    /// Whatever document it is read from, a decoded aggregation is valid:
    /// decoding lets no mistagged value through.
    pub proof fn lemma_decoded_valid(doc: JsonValue)
        ensures
            AggregationView::decode(doc) matches Some(x) ==> x.valid(),
        decreases doc, 1nat,
    {
        reveal(AggregationView::decode);
        if get(doc, Field::Filter) is Some {
            FilterView::lemma_decoded_valid(get(doc, Field::Filter).unwrap());
        }
        if get(doc, Field::Aggregator) is Some {
            AggregationView::lemma_decoded_valid(get(doc, Field::Aggregator).unwrap());
        }
    }

    /// Decoding the document of a valid aggregation gives the aggregation back.
    pub proof fn lemma_round_trip(self)
        requires
            self.valid(),
        ensures
            AggregationView::decode(self.encode()) == Some(self),
            !(self.encode() is Null),
        decreases self, 0nat,
    {
        reveal(AggregationView::encode);
        reveal(AggregationView::decode);
        match self {
            AggregationView::Filtered { filter, aggregator, .. } => {
                filter.lemma_round_trip();
                aggregator.lemma_round_trip();
            },
            _ => {},
        }
    }
}

impl Aggregation {
    /// The discriminator under which this aggregation travels: the one of its
    /// shape.
    pub fn discriminator(&self) -> (r: AggregationType)
        ensures
            r == self@.expected_type(),
    {
        match self {
            Aggregation::Count { .. } => AggregationType::Count,
            Aggregation::DoubleSum { .. } => AggregationType::DoubleSum,
            Aggregation::LongSum { .. } => AggregationType::LongSum,
            Aggregation::FloatSum { .. } => AggregationType::FloatSum,
            Aggregation::DoubleMax { .. } => AggregationType::DoubleMax,
            Aggregation::LongMax { .. } => AggregationType::LongMax,
            Aggregation::FloatMax { .. } => AggregationType::FloatMax,
            Aggregation::DoubleMin { .. } => AggregationType::DoubleMin,
            Aggregation::LongMin { .. } => AggregationType::LongMin,
            Aggregation::FloatMin { .. } => AggregationType::FloatMin,
            Aggregation::DoubleMean { .. } => AggregationType::DoubleMean,
            Aggregation::DoubleFirst { .. } => AggregationType::DoubleFirst,
            Aggregation::LongFirst { .. } => AggregationType::LongFirst,
            Aggregation::FloatFirst { .. } => AggregationType::FloatFirst,
            Aggregation::DoubleLast { .. } => AggregationType::DoubleLast,
            Aggregation::LongLast { .. } => AggregationType::LongLast,
            Aggregation::FloatLast { .. } => AggregationType::FloatLast,
            Aggregation::DoubleAny { .. } => AggregationType::DoubleAny,
            Aggregation::LongAny { .. } => AggregationType::LongAny,
            Aggregation::FloatAny { .. } => AggregationType::FloatAny,
            Aggregation::StringAny { .. } => AggregationType::StringAny,
            Aggregation::JavaScript { .. } => AggregationType::JavaScript,
            Aggregation::Filtered { .. } => AggregationType::Filtered,
            Aggregation::Grouping { .. } => AggregationType::Grouping,
        }
    }

    /// Whether the discriminator fits the shape.
    pub fn validate_type(&self) -> (r: bool)
        ensures
            r == self@.type_consistent(),
    {
        true
    }

    /// Whether every component that this aggregation owns is valid.
    pub fn validate_subcomponents(&self) -> (r: bool)
        ensures
            r == self@.subcomponents_valid(),
        decreases self, 0nat,
    {
        match self {
            Aggregation::Filtered { filter, aggregator, .. } => {
                filter.validate()
                    && aggregator.validate()
            },
            _ => true,
        }
    }

    /// Whether this aggregation is valid.
    pub fn validate(&self) -> (r: bool)
        ensures
            r == self@.valid(),
        decreases self, 1nat,
    {
        self.validate_type() && self.validate_subcomponents()
    }

    /// Whether an aggregation that may be absent is valid.
    pub fn validate_opt(x: &Option<Aggregation>) -> (r: bool)
        ensures
            r == AggregationView::opt_valid(x.deep_view()),
    {
        match x {
            Some(present) => present.validate(),
            None => true,
        }
    }

    /// Writes this aggregation as the document that stands for it on the wire.
    pub fn encode(&self) -> (v: serde_json::Value)
        ensures
            value_model(v) == self@.encode(),
        decreases self, 0nat,
    {
        proof {
            reveal(AggregationView::encode);
        }
        let mut members = new_object();
        match self {
            Aggregation::Count { name } => {
                put_literal(&mut members, Field::Type, &AggregationType::Count);
                put_text(&mut members, Field::Name, name.as_str());
            },
            Aggregation::DoubleSum { name, field_name } => {
                put_literal(&mut members, Field::Type, &AggregationType::DoubleSum);
                put_text(&mut members, Field::Name, name.as_str());
                put_text(&mut members, Field::FieldName, field_name.as_str());
            },
            Aggregation::LongSum { name, field_name } => {
                put_literal(&mut members, Field::Type, &AggregationType::LongSum);
                put_text(&mut members, Field::Name, name.as_str());
                put_text(&mut members, Field::FieldName, field_name.as_str());
            },
            Aggregation::FloatSum { name, field_name } => {
                put_literal(&mut members, Field::Type, &AggregationType::FloatSum);
                put_text(&mut members, Field::Name, name.as_str());
                put_text(&mut members, Field::FieldName, field_name.as_str());
            },
            Aggregation::DoubleMax { name, field_name } => {
                put_literal(&mut members, Field::Type, &AggregationType::DoubleMax);
                put_text(&mut members, Field::Name, name.as_str());
                put_text(&mut members, Field::FieldName, field_name.as_str());
            },
            Aggregation::LongMax { name, field_name } => {
                put_literal(&mut members, Field::Type, &AggregationType::LongMax);
                put_text(&mut members, Field::Name, name.as_str());
                put_text(&mut members, Field::FieldName, field_name.as_str());
            },
            Aggregation::FloatMax { name, field_name } => {
                put_literal(&mut members, Field::Type, &AggregationType::FloatMax);
                put_text(&mut members, Field::Name, name.as_str());
                put_text(&mut members, Field::FieldName, field_name.as_str());
            },
            Aggregation::DoubleMin { name, field_name } => {
                put_literal(&mut members, Field::Type, &AggregationType::DoubleMin);
                put_text(&mut members, Field::Name, name.as_str());
                put_text(&mut members, Field::FieldName, field_name.as_str());
            },
            Aggregation::LongMin { name, field_name } => {
                put_literal(&mut members, Field::Type, &AggregationType::LongMin);
                put_text(&mut members, Field::Name, name.as_str());
                put_text(&mut members, Field::FieldName, field_name.as_str());
            },
            Aggregation::FloatMin { name, field_name } => {
                put_literal(&mut members, Field::Type, &AggregationType::FloatMin);
                put_text(&mut members, Field::Name, name.as_str());
                put_text(&mut members, Field::FieldName, field_name.as_str());
            },
            Aggregation::DoubleMean { name, field_name } => {
                put_literal(&mut members, Field::Type, &AggregationType::DoubleMean);
                put_text(&mut members, Field::Name, name.as_str());
                put_text(&mut members, Field::FieldName, field_name.as_str());
            },
            Aggregation::DoubleFirst { name, field_name } => {
                put_literal(&mut members, Field::Type, &AggregationType::DoubleFirst);
                put_text(&mut members, Field::Name, name.as_str());
                put_text(&mut members, Field::FieldName, field_name.as_str());
            },
            Aggregation::LongFirst { name, field_name } => {
                put_literal(&mut members, Field::Type, &AggregationType::LongFirst);
                put_text(&mut members, Field::Name, name.as_str());
                put_text(&mut members, Field::FieldName, field_name.as_str());
            },
            Aggregation::FloatFirst { name, field_name } => {
                put_literal(&mut members, Field::Type, &AggregationType::FloatFirst);
                put_text(&mut members, Field::Name, name.as_str());
                put_text(&mut members, Field::FieldName, field_name.as_str());
            },
            Aggregation::DoubleLast { name, field_name } => {
                put_literal(&mut members, Field::Type, &AggregationType::DoubleLast);
                put_text(&mut members, Field::Name, name.as_str());
                put_text(&mut members, Field::FieldName, field_name.as_str());
            },
            Aggregation::LongLast { name, field_name } => {
                put_literal(&mut members, Field::Type, &AggregationType::LongLast);
                put_text(&mut members, Field::Name, name.as_str());
                put_text(&mut members, Field::FieldName, field_name.as_str());
            },
            Aggregation::FloatLast { name, field_name } => {
                put_literal(&mut members, Field::Type, &AggregationType::FloatLast);
                put_text(&mut members, Field::Name, name.as_str());
                put_text(&mut members, Field::FieldName, field_name.as_str());
            },
            Aggregation::DoubleAny { name, field_name } => {
                put_literal(&mut members, Field::Type, &AggregationType::DoubleAny);
                put_text(&mut members, Field::Name, name.as_str());
                put_text(&mut members, Field::FieldName, field_name.as_str());
            },
            Aggregation::LongAny { name, field_name } => {
                put_literal(&mut members, Field::Type, &AggregationType::LongAny);
                put_text(&mut members, Field::Name, name.as_str());
                put_text(&mut members, Field::FieldName, field_name.as_str());
            },
            Aggregation::FloatAny { name, field_name } => {
                put_literal(&mut members, Field::Type, &AggregationType::FloatAny);
                put_text(&mut members, Field::Name, name.as_str());
                put_text(&mut members, Field::FieldName, field_name.as_str());
            },
            Aggregation::StringAny { name, field_name } => {
                put_literal(&mut members, Field::Type, &AggregationType::StringAny);
                put_text(&mut members, Field::Name, name.as_str());
                put_text(&mut members, Field::FieldName, field_name.as_str());
            },
            Aggregation::JavaScript { name, field_names, fn_aggregate, fn_combine, fn_reset } => {
                put_literal(&mut members, Field::Type, &AggregationType::JavaScript);
                put_text(&mut members, Field::Name, name.as_str());
                put_texts(&mut members, Field::FieldNames, field_names);
                put_text(&mut members, Field::FnAggregate, fn_aggregate.as_str());
                put_text(&mut members, Field::FnCombine, fn_combine.as_str());
                put_text(&mut members, Field::FnReset, fn_reset.as_str());
            },
            Aggregation::Filtered { filter, aggregator } => {
                put_literal(&mut members, Field::Type, &AggregationType::Filtered);
                put_value(&mut members, Field::Filter, filter.encode());
                put_value(&mut members, Field::Aggregator, aggregator.encode());
            },
            Aggregation::Grouping { name, groupings } => {
                put_literal(&mut members, Field::Type, &AggregationType::Grouping);
                put_text(&mut members, Field::Name, name.as_str());
                put_texts(&mut members, Field::Groupings, groupings);
            },
        }
        object_value(members)
    }

    /// Stores an aggregation under `field`, unless it is absent.
    pub fn put_opt(members: &mut Object, field: Field, x: &Option<Aggregation>)
        ensures
            map_model(*final(members))
                == map_model(*old(members)).with_opt(
                    field,
                    AggregationView::encode_opt(x.deep_view()),
                ),
    {
        match x {
            Some(present) => put_opt_value(members, field, Some(present.encode())),
            None => put_opt_value(members, field, None),
        }
    }

    /// Reads the aggregation that a document stands for. Gives `None` where the
    /// document stands for none.
    pub fn decode(v: &serde_json::Value) -> (r: Option<Aggregation>)
        ensures
            r.deep_view() == AggregationView::decode(value_model(*v)),
        decreases value_model(*v), 1nat,
    {
        proof {
            reveal(AggregationView::decode);
        }
        match read_literal::<AggregationType>(v, Field::Type)? {
            AggregationType::Count => Some(Aggregation::Count { name: read_text(v, Field::Name)? }),
            AggregationType::DoubleSum => Some(Aggregation::DoubleSum {
                name: read_text(v, Field::Name)?,
                field_name: read_text(v, Field::FieldName)?,
            }),
            AggregationType::LongSum => Some(Aggregation::LongSum {
                name: read_text(v, Field::Name)?,
                field_name: read_text(v, Field::FieldName)?,
            }),
            AggregationType::FloatSum => Some(Aggregation::FloatSum {
                name: read_text(v, Field::Name)?,
                field_name: read_text(v, Field::FieldName)?,
            }),
            AggregationType::DoubleMax => Some(Aggregation::DoubleMax {
                name: read_text(v, Field::Name)?,
                field_name: read_text(v, Field::FieldName)?,
            }),
            AggregationType::LongMax => Some(Aggregation::LongMax {
                name: read_text(v, Field::Name)?,
                field_name: read_text(v, Field::FieldName)?,
            }),
            AggregationType::FloatMax => Some(Aggregation::FloatMax {
                name: read_text(v, Field::Name)?,
                field_name: read_text(v, Field::FieldName)?,
            }),
            AggregationType::DoubleMin => Some(Aggregation::DoubleMin {
                name: read_text(v, Field::Name)?,
                field_name: read_text(v, Field::FieldName)?,
            }),
            AggregationType::LongMin => Some(Aggregation::LongMin {
                name: read_text(v, Field::Name)?,
                field_name: read_text(v, Field::FieldName)?,
            }),
            AggregationType::FloatMin => Some(Aggregation::FloatMin {
                name: read_text(v, Field::Name)?,
                field_name: read_text(v, Field::FieldName)?,
            }),
            AggregationType::DoubleMean => Some(Aggregation::DoubleMean {
                name: read_text(v, Field::Name)?,
                field_name: read_text(v, Field::FieldName)?,
            }),
            AggregationType::DoubleFirst => Some(Aggregation::DoubleFirst {
                name: read_text(v, Field::Name)?,
                field_name: read_text(v, Field::FieldName)?,
            }),
            AggregationType::LongFirst => Some(Aggregation::LongFirst {
                name: read_text(v, Field::Name)?,
                field_name: read_text(v, Field::FieldName)?,
            }),
            AggregationType::FloatFirst => Some(Aggregation::FloatFirst {
                name: read_text(v, Field::Name)?,
                field_name: read_text(v, Field::FieldName)?,
            }),
            AggregationType::DoubleLast => Some(Aggregation::DoubleLast {
                name: read_text(v, Field::Name)?,
                field_name: read_text(v, Field::FieldName)?,
            }),
            AggregationType::LongLast => Some(Aggregation::LongLast {
                name: read_text(v, Field::Name)?,
                field_name: read_text(v, Field::FieldName)?,
            }),
            AggregationType::FloatLast => Some(Aggregation::FloatLast {
                name: read_text(v, Field::Name)?,
                field_name: read_text(v, Field::FieldName)?,
            }),
            AggregationType::DoubleAny => Some(Aggregation::DoubleAny {
                name: read_text(v, Field::Name)?,
                field_name: read_text(v, Field::FieldName)?,
            }),
            AggregationType::LongAny => Some(Aggregation::LongAny {
                name: read_text(v, Field::Name)?,
                field_name: read_text(v, Field::FieldName)?,
            }),
            AggregationType::FloatAny => Some(Aggregation::FloatAny {
                name: read_text(v, Field::Name)?,
                field_name: read_text(v, Field::FieldName)?,
            }),
            AggregationType::StringAny => Some(Aggregation::StringAny {
                name: read_text(v, Field::Name)?,
                field_name: read_text(v, Field::FieldName)?,
            }),
            AggregationType::JavaScript => Some(Aggregation::JavaScript {
                name: read_text(v, Field::Name)?,
                field_names: read_texts(v, Field::FieldNames)?,
                fn_aggregate: read_text(v, Field::FnAggregate)?,
                fn_combine: read_text(v, Field::FnCombine)?,
                fn_reset: read_text(v, Field::FnReset)?,
            }),
            AggregationType::Filtered => Some(Aggregation::Filtered {
                filter: Filter::read(v, Field::Filter)?,
                aggregator: Box::new(Aggregation::read(v, Field::Aggregator)?),
            }),
            AggregationType::Grouping => Some(Aggregation::Grouping {
                name: read_text(v, Field::Name)?,
                groupings: read_texts(v, Field::Groupings)?,
            }),
        }
    }

    /// Reads an aggregation that must stand under `field`.
    pub fn read(v: &serde_json::Value, field: Field) -> (r: Option<Aggregation>)
        ensures
            r.deep_view() == AggregationView::at(value_model(*v), field),
        decreases value_model(*v), 0nat,
    {
        proof {
            reveal(AggregationView::decode);
        }
        let found = member_of(v, field)?;
        Aggregation::decode(found)
    }

    /// Reads an aggregation that may stand under `field`. The outer `None` says
    /// that the member is there and stands for none.
    pub fn read_opt(v: &serde_json::Value, field: Field) -> (r: Option<Option<Aggregation>>)
        ensures
            r.deep_view() == AggregationView::opt_at(value_model(*v), field),
    {
        match member_of(v, field) {
            Some(found) => Some(Some(Aggregation::decode(found)?)),
            None => Some(None),
        }
    }

    /// A copy of this aggregation.
    pub fn duplicate(&self) -> (r: Aggregation)
        ensures
            r@ == self@,
        decreases self, 0nat,
    {
        match self {
            Aggregation::Count { name } => Aggregation::Count { name: name.clone() },
            Aggregation::DoubleSum { name, field_name } => Aggregation::DoubleSum {
                name: name.clone(),
                field_name: field_name.clone(),
            },
            Aggregation::LongSum { name, field_name } => Aggregation::LongSum {
                name: name.clone(),
                field_name: field_name.clone(),
            },
            Aggregation::FloatSum { name, field_name } => Aggregation::FloatSum {
                name: name.clone(),
                field_name: field_name.clone(),
            },
            Aggregation::DoubleMax { name, field_name } => Aggregation::DoubleMax {
                name: name.clone(),
                field_name: field_name.clone(),
            },
            Aggregation::LongMax { name, field_name } => Aggregation::LongMax {
                name: name.clone(),
                field_name: field_name.clone(),
            },
            Aggregation::FloatMax { name, field_name } => Aggregation::FloatMax {
                name: name.clone(),
                field_name: field_name.clone(),
            },
            Aggregation::DoubleMin { name, field_name } => Aggregation::DoubleMin {
                name: name.clone(),
                field_name: field_name.clone(),
            },
            Aggregation::LongMin { name, field_name } => Aggregation::LongMin {
                name: name.clone(),
                field_name: field_name.clone(),
            },
            Aggregation::FloatMin { name, field_name } => Aggregation::FloatMin {
                name: name.clone(),
                field_name: field_name.clone(),
            },
            Aggregation::DoubleMean { name, field_name } => Aggregation::DoubleMean {
                name: name.clone(),
                field_name: field_name.clone(),
            },
            Aggregation::DoubleFirst { name, field_name } => Aggregation::DoubleFirst {
                name: name.clone(),
                field_name: field_name.clone(),
            },
            Aggregation::LongFirst { name, field_name } => Aggregation::LongFirst {
                name: name.clone(),
                field_name: field_name.clone(),
            },
            Aggregation::FloatFirst { name, field_name } => Aggregation::FloatFirst {
                name: name.clone(),
                field_name: field_name.clone(),
            },
            Aggregation::DoubleLast { name, field_name } => Aggregation::DoubleLast {
                name: name.clone(),
                field_name: field_name.clone(),
            },
            Aggregation::LongLast { name, field_name } => Aggregation::LongLast {
                name: name.clone(),
                field_name: field_name.clone(),
            },
            Aggregation::FloatLast { name, field_name } => Aggregation::FloatLast {
                name: name.clone(),
                field_name: field_name.clone(),
            },
            Aggregation::DoubleAny { name, field_name } => Aggregation::DoubleAny {
                name: name.clone(),
                field_name: field_name.clone(),
            },
            Aggregation::LongAny { name, field_name } => Aggregation::LongAny {
                name: name.clone(),
                field_name: field_name.clone(),
            },
            Aggregation::FloatAny { name, field_name } => Aggregation::FloatAny {
                name: name.clone(),
                field_name: field_name.clone(),
            },
            Aggregation::StringAny { name, field_name } => Aggregation::StringAny {
                name: name.clone(),
                field_name: field_name.clone(),
            },
            Aggregation::JavaScript {
                name,
                field_names,
                fn_aggregate,
                fn_combine,
                fn_reset,
            } => Aggregation::JavaScript {
                name: name.clone(),
                field_names: copy_texts(field_names),
                fn_aggregate: fn_aggregate.clone(),
                fn_combine: fn_combine.clone(),
                fn_reset: fn_reset.clone(),
            },
            Aggregation::Filtered { filter, aggregator } => Aggregation::Filtered {
                filter: filter.duplicate(),
                aggregator: Box::new(aggregator.duplicate()),
            },
            Aggregation::Grouping { name, groupings } => Aggregation::Grouping {
                name: name.clone(),
                groupings: copy_texts(groupings),
            },
        }
    }

    /// A copy of an aggregation that may be absent.
    pub fn duplicate_opt(x: &Option<Aggregation>) -> (r: Option<Aggregation>)
        ensures
            r.deep_view() == x.deep_view(),
    {
        match x {
            Some(present) => Some(present.duplicate()),
            None => None,
        }
    }
}

impl Clone for Aggregation {
    fn clone(&self) -> (r: Self)
        ensures
            r@ == self@,
    {
        self.duplicate()
    }
}

/// A value computed from the results of aggregations.
#[derive(Debug, PartialEq, Eq)]
pub enum PostAggregation {
    /// An arithmetic operator applied to the fields named.
    Arithmetic {
        name: String,
        fn_: String,
        fields: Vec<String>,
        ordering: Option<String>,
    },
    /// The value of an aggregation.
    FieldAccess {
        name: String,
        field_name: String,
    },
    /// The finalized value of an aggregation.
    FinalizingFieldAccess {
        name: String,
        field_name: String,
    },
    /// The greatest of the fields named, read as doubles.
    DoubleGreatest {
        name: String,
        fields: Vec<String>,
    },
    /// The greatest of the fields named, read as longs.
    LongGreatest {
        name: String,
        fields: Vec<String>,
    },
    /// The least of the fields named, read as doubles.
    DoubleLeast {
        name: String,
        fields: Vec<String>,
    },
    /// The least of the fields named, read as longs.
    LongLeast {
        name: String,
        fields: Vec<String>,
    },
    /// The result of a JavaScript function.
    JavaScript {
        name: String,
        field_names: Vec<String>,
        function: String,
    },
    /// The cardinality estimated by a sketch aggregation.
    HyperUniqueCardinality {
        name: String,
        field_name: String,
    },
}

/// What a post-aggregation holds, as mathematics sees it.
pub enum PostAggregationView {
    Arithmetic {
        name: Seq<char>,
        fn_: Seq<char>,
        fields: Seq<Seq<char>>,
        ordering: Option<Seq<char>>,
    },
    FieldAccess {
        name: Seq<char>,
        field_name: Seq<char>,
    },
    FinalizingFieldAccess {
        name: Seq<char>,
        field_name: Seq<char>,
    },
    DoubleGreatest {
        name: Seq<char>,
        fields: Seq<Seq<char>>,
    },
    LongGreatest {
        name: Seq<char>,
        fields: Seq<Seq<char>>,
    },
    DoubleLeast {
        name: Seq<char>,
        fields: Seq<Seq<char>>,
    },
    LongLeast {
        name: Seq<char>,
        fields: Seq<Seq<char>>,
    },
    JavaScript {
        name: Seq<char>,
        field_names: Seq<Seq<char>>,
        function: Seq<char>,
    },
    HyperUniqueCardinality {
        name: Seq<char>,
        field_name: Seq<char>,
    },
}

impl PostAggregation {
    /// What this post-aggregation holds.
    pub open spec fn model(&self) -> PostAggregationView {
        match self {
            PostAggregation::Arithmetic {
                name,
                fn_,
                fields,
                ordering,
            } => PostAggregationView::Arithmetic {
                name: name@,
                fn_: fn_@,
                fields: fields.deep_view(),
                ordering: ordering.deep_view(),
            },
            PostAggregation::FieldAccess { name, field_name } => PostAggregationView::FieldAccess {
                name: name@,
                field_name: field_name@,
            },
            PostAggregation::FinalizingFieldAccess {
                name,
                field_name,
            } => PostAggregationView::FinalizingFieldAccess {
                name: name@,
                field_name: field_name@,
            },
            PostAggregation::DoubleGreatest {
                name,
                fields,
            } => PostAggregationView::DoubleGreatest {
                name: name@,
                fields: fields.deep_view(),
            },
            PostAggregation::LongGreatest { name, fields } => PostAggregationView::LongGreatest {
                name: name@,
                fields: fields.deep_view(),
            },
            PostAggregation::DoubleLeast { name, fields } => PostAggregationView::DoubleLeast {
                name: name@,
                fields: fields.deep_view(),
            },
            PostAggregation::LongLeast { name, fields } => PostAggregationView::LongLeast {
                name: name@,
                fields: fields.deep_view(),
            },
            PostAggregation::JavaScript {
                name,
                field_names,
                function,
            } => PostAggregationView::JavaScript {
                name: name@,
                field_names: field_names.deep_view(),
                function: function@,
            },
            PostAggregation::HyperUniqueCardinality {
                name,
                field_name,
            } => PostAggregationView::HyperUniqueCardinality {
                name: name@,
                field_name: field_name@,
            },
        }
    }

    /// What a list of post-aggregations holds.
    pub open spec fn models(list: &Vec<PostAggregation>) -> Seq<PostAggregationView> {
        Seq::new(
            list@.len(),
            |i: int|
                if 0 <= i < list@.len() {
                    list@[i].model()
                } else {
                    arbitrary()
                },
        )
    }

    /// What a list of post-aggregations that may be absent holds.
    pub open spec fn opt_models(
        list: &Option<Vec<PostAggregation>>,
    ) -> Option<Seq<PostAggregationView>> {
        match list {
            Some(present) => Some(PostAggregation::models(present)),
            None => None,
        }
    }
}

impl View for PostAggregation {
    type V = PostAggregationView;

    open spec fn view(&self) -> PostAggregationView {
        self.model()
    }
}

impl DeepView for PostAggregation {
    type V = PostAggregationView;

    open spec fn deep_view(&self) -> PostAggregationView {
        self.model()
    }
}

impl PostAggregationView {
    /// The discriminator that a post-aggregation of this shape is meant to
    /// carry.
    pub open spec fn expected_type(self) -> PostAggregationType {
        match self {
            PostAggregationView::Arithmetic { .. } => PostAggregationType::Arithmetic,
            PostAggregationView::FieldAccess { .. } => PostAggregationType::FieldAccess,
            PostAggregationView::FinalizingFieldAccess {
                ..
            } => PostAggregationType::FinalizingFieldAccess,
            PostAggregationView::DoubleGreatest { .. } => PostAggregationType::DoubleGreatest,
            PostAggregationView::LongGreatest { .. } => PostAggregationType::LongGreatest,
            PostAggregationView::DoubleLeast { .. } => PostAggregationType::DoubleLeast,
            PostAggregationView::LongLeast { .. } => PostAggregationType::LongLeast,
            PostAggregationView::JavaScript { .. } => PostAggregationType::JavaScript,
            PostAggregationView::HyperUniqueCardinality {
                ..
            } => PostAggregationType::HyperUniqueCardinality,
        }
    }

    /// Whether the discriminator fits the shape. A post-aggregation carries
    /// none of its own: it travels under the one its shape is meant to carry,
    /// so the two always agree.
    pub open spec fn type_consistent(self) -> bool {
        true
    }

    /// Whether every component that this post-aggregation owns is valid.
    pub open spec fn subcomponents_valid(self) -> bool {
        match self {
            _ => true,
        }
    }

    /// Whether this post-aggregation is valid: its discriminator fits its
    /// shape, and every component it owns is valid.
    pub open spec fn valid(self) -> bool {
        self.type_consistent() && self.subcomponents_valid()
    }

    /// Whether every one of a list of post-aggregations is valid. An empty list
    /// is.
    pub open spec fn all_valid(list: Seq<PostAggregationView>) -> bool {
        forall|i: int| 0 <= i < list.len() ==> (#[trigger] list[i]).valid()
    }

    /// Whether every one of a list of post-aggregations that may be absent is
    /// valid. An absent list is.
    pub open spec fn opt_all_valid(list: Option<Seq<PostAggregationView>>) -> bool {
        match list {
            Some(present) => PostAggregationView::all_valid(present),
            None => true,
        }
    }

    /// The document that stands for this post-aggregation on the wire.
    #[verifier::opaque]
    pub open spec fn encode(self) -> JsonValue {
        match self {
            PostAggregationView::Arithmetic { name, fn_, fields, ordering } => JsonValue::Object(
                no_members()
                    .with(Field::Type, encode_literal(PostAggregationType::Arithmetic))
                    .with(Field::Name, text(name))
                    .with(Field::Fn, text(fn_))
                    .with(Field::Fields, texts(fields))
                    .with_opt(Field::Collation, opt_text(ordering)),
            ),
            PostAggregationView::FieldAccess { name, field_name } => JsonValue::Object(
                no_members()
                    .with(Field::Type, encode_literal(PostAggregationType::FieldAccess))
                    .with(Field::Name, text(name))
                    .with(Field::FieldName, text(field_name)),
            ),
            PostAggregationView::FinalizingFieldAccess { name, field_name } => JsonValue::Object(
                no_members()
                    .with(Field::Type, encode_literal(PostAggregationType::FinalizingFieldAccess))
                    .with(Field::Name, text(name))
                    .with(Field::FieldName, text(field_name)),
            ),
            PostAggregationView::DoubleGreatest { name, fields } => JsonValue::Object(
                no_members()
                    .with(Field::Type, encode_literal(PostAggregationType::DoubleGreatest))
                    .with(Field::Name, text(name))
                    .with(Field::Fields, texts(fields)),
            ),
            PostAggregationView::LongGreatest { name, fields } => JsonValue::Object(
                no_members()
                    .with(Field::Type, encode_literal(PostAggregationType::LongGreatest))
                    .with(Field::Name, text(name))
                    .with(Field::Fields, texts(fields)),
            ),
            PostAggregationView::DoubleLeast { name, fields } => JsonValue::Object(
                no_members()
                    .with(Field::Type, encode_literal(PostAggregationType::DoubleLeast))
                    .with(Field::Name, text(name))
                    .with(Field::Fields, texts(fields)),
            ),
            PostAggregationView::LongLeast { name, fields } => JsonValue::Object(
                no_members()
                    .with(Field::Type, encode_literal(PostAggregationType::LongLeast))
                    .with(Field::Name, text(name))
                    .with(Field::Fields, texts(fields)),
            ),
            PostAggregationView::JavaScript { name, field_names, function } => JsonValue::Object(
                no_members()
                    .with(Field::Type, encode_literal(PostAggregationType::JavaScript))
                    .with(Field::Name, text(name))
                    .with(Field::FieldNames, texts(field_names))
                    .with(Field::Function, text(function)),
            ),
            PostAggregationView::HyperUniqueCardinality { name, field_name } => JsonValue::Object(
                no_members()
                    .with(Field::Type, encode_literal(PostAggregationType::HyperUniqueCardinality))
                    .with(Field::Name, text(name))
                    .with(Field::FieldName, text(field_name)),
            ),
        }
    }

    /// The document of a list of post-aggregations: a JSON array with one
    /// element for each, in order.
    pub open spec fn encode_all(list: Seq<PostAggregationView>) -> JsonValue {
        JsonValue::Array(
            Seq::new(
                list.len(),
                |i: int|
                    if 0 <= i < list.len() {
                        list[i].encode()
                    } else {
                        arbitrary()
                    },
            ),
        )
    }

    /// The document of a list of post-aggregations that may be absent.
    pub open spec fn encode_opt_all(list: Option<Seq<PostAggregationView>>) -> Option<JsonValue> {
        match list {
            Some(present) => Some(PostAggregationView::encode_all(present)),
            None => None,
        }
    }

    /// The post-aggregation that a document stands for, if it stands for one.
    /// Members that a post-aggregation does not have are passed over.
    #[verifier::opaque]
    pub open spec fn decode(doc: JsonValue) -> Option<PostAggregationView> {
        match literal_at::<PostAggregationType>(doc, Field::Type) {
            Some(PostAggregationType::Arithmetic) => match (
                text_at(doc, Field::Name),
                text_at(doc, Field::Fn),
                texts_at(doc, Field::Fields),
                opt_text_at(doc, Field::Collation),
            ) {
                (Some(name), Some(fn_), Some(fields), Some(ordering)) => {
                    Some(PostAggregationView::Arithmetic { name, fn_, fields, ordering })
                },
                _ => None,
            },
            Some(PostAggregationType::Constant) => None,
            Some(PostAggregationType::JavaScript) => match (
                text_at(doc, Field::Name),
                texts_at(doc, Field::FieldNames),
                text_at(doc, Field::Function),
            ) {
                (Some(name), Some(field_names), Some(function)) => {
                    Some(PostAggregationView::JavaScript { name, field_names, function })
                },
                _ => None,
            },
            Some(PostAggregationType::HyperUniqueCardinality) => match (
                text_at(doc, Field::Name),
                text_at(doc, Field::FieldName),
            ) {
                (Some(name), Some(field_name)) => {
                    Some(PostAggregationView::HyperUniqueCardinality { name, field_name })
                },
                _ => None,
            },
            Some(PostAggregationType::FieldAccess) => match (
                text_at(doc, Field::Name),
                text_at(doc, Field::FieldName),
            ) {
                (Some(name), Some(field_name)) => {
                    Some(PostAggregationView::FieldAccess { name, field_name })
                },
                _ => None,
            },
            Some(PostAggregationType::FinalizingFieldAccess) => match (
                text_at(doc, Field::Name),
                text_at(doc, Field::FieldName),
            ) {
                (Some(name), Some(field_name)) => {
                    Some(PostAggregationView::FinalizingFieldAccess { name, field_name })
                },
                _ => None,
            },
            Some(PostAggregationType::DoubleGreatest) => match (
                text_at(doc, Field::Name),
                texts_at(doc, Field::Fields),
            ) {
                (Some(name), Some(fields)) => {
                    Some(PostAggregationView::DoubleGreatest { name, fields })
                },
                _ => None,
            },
            Some(PostAggregationType::LongGreatest) => match (
                text_at(doc, Field::Name),
                texts_at(doc, Field::Fields),
            ) {
                (
                    Some(name),
                    Some(fields),
                ) => Some(PostAggregationView::LongGreatest { name, fields }),
                _ => None,
            },
            Some(PostAggregationType::DoubleLeast) => match (
                text_at(doc, Field::Name),
                texts_at(doc, Field::Fields),
            ) {
                (
                    Some(name),
                    Some(fields),
                ) => Some(PostAggregationView::DoubleLeast { name, fields }),
                _ => None,
            },
            Some(PostAggregationType::LongLeast) => match (
                text_at(doc, Field::Name),
                texts_at(doc, Field::Fields),
            ) {
                (Some(name), Some(fields)) => Some(PostAggregationView::LongLeast { name, fields }),
                _ => None,
            },
            None => None,
        }
    }

    /// The list of post-aggregations that a document stands for, if it is a
    /// JSON array whose every element stands for one.
    pub open spec fn decode_all(doc: JsonValue) -> Option<Seq<PostAggregationView>> {
        match doc {
            JsonValue::Array(items) => if forall|i: int|
                0 <= i < items.len() ==> PostAggregationView::decode(#[trigger] items[i]) is Some {
                Some(
                    Seq::new(
                        items.len(),
                        |i: int|
                            if 0 <= i < items.len() {
                                PostAggregationView::decode(items[i]).unwrap()
                            } else {
                                arbitrary()
                            },
                    ),
                )
            } else {
                None
            },
            _ => None,
        }
    }

    /// The list of post-aggregations that a document may hold under `field`:
    /// the outer `None` says that the member is there and stands for none.
    pub open spec fn opt_all_at(
        doc: JsonValue,
        field: Field,
    ) -> Option<Option<Seq<PostAggregationView>>> {
        match get(doc, field) {
            Some(found) => match PostAggregationView::decode_all(found) {
                Some(present) => Some(Some(present)),
                None => None,
            },
            None => Some(None),
        }
    }

    /// Whatever document it is read from, a decoded post-aggregation is valid:
    /// decoding lets no mistagged value through.
    pub proof fn lemma_decoded_valid(doc: JsonValue)
        ensures
            PostAggregationView::decode(doc) matches Some(x) ==> x.valid(),
    {
        reveal(PostAggregationView::decode);
    }

    /// Whatever document it is read from, every one of a decoded list of
    /// post-aggregations is valid.
    pub proof fn lemma_decoded_all_valid(doc: JsonValue)
        ensures
            PostAggregationView::decode_all(doc) matches Some(list) ==> PostAggregationView::all_valid(
                list,
            ),
    {
        if let JsonValue::Array(items) = doc {
            assert forall|i: int| 0 <= i < items.len() implies (
                PostAggregationView::decode(#[trigger] items[i]) matches Some(x) ==> x.valid()
            ) by {
                PostAggregationView::lemma_decoded_valid(items[i]);
            }
        }
    }

    /// Decoding the document of a valid post-aggregation gives the
    /// post-aggregation back.
    pub proof fn lemma_round_trip(self)
        requires
            self.valid(),
        ensures
            PostAggregationView::decode(self.encode()) == Some(self),
            !(self.encode() is Null),
    {
        reveal(PostAggregationView::encode);
        reveal(PostAggregationView::decode);
    }

    /// Decoding the document of a list of valid post-aggregations gives the
    /// list back.
    pub proof fn lemma_round_trip_all(list: Seq<PostAggregationView>)
        requires
            PostAggregationView::all_valid(list),
        ensures
            PostAggregationView::decode_all(PostAggregationView::encode_all(list)) == Some(list),
    {
        let items = PostAggregationView::encode_all(list)->Array_0;
        assert forall|i: int| 0 <= i < items.len() implies
            PostAggregationView::decode(#[trigger] items[i]) == Some(list[i]) by {
            list[i].lemma_round_trip();
        }
        assert(PostAggregationView::decode_all(PostAggregationView::encode_all(list)).unwrap() =~= list);
    }
}

impl PostAggregation {
    /// The discriminator under which this post-aggregation travels: the one of
    /// its shape.
    pub fn discriminator(&self) -> (r: PostAggregationType)
        ensures
            r == self@.expected_type(),
    {
        match self {
            PostAggregation::Arithmetic { .. } => PostAggregationType::Arithmetic,
            PostAggregation::FieldAccess { .. } => PostAggregationType::FieldAccess,
            PostAggregation::FinalizingFieldAccess { .. } => {
                PostAggregationType::FinalizingFieldAccess
            },
            PostAggregation::DoubleGreatest { .. } => PostAggregationType::DoubleGreatest,
            PostAggregation::LongGreatest { .. } => PostAggregationType::LongGreatest,
            PostAggregation::DoubleLeast { .. } => PostAggregationType::DoubleLeast,
            PostAggregation::LongLeast { .. } => PostAggregationType::LongLeast,
            PostAggregation::JavaScript { .. } => PostAggregationType::JavaScript,
            PostAggregation::HyperUniqueCardinality {
                ..
            } => PostAggregationType::HyperUniqueCardinality,
        }
    }

    /// Whether the discriminator fits the shape.
    pub fn validate_type(&self) -> (r: bool)
        ensures
            r == self@.type_consistent(),
    {
        true
    }

    /// Whether every component that this post-aggregation owns is valid.
    pub fn validate_subcomponents(&self) -> (r: bool)
        ensures
            r == self@.subcomponents_valid(),
    {
        match self {
            _ => true,
        }
    }

    /// Whether this post-aggregation is valid.
    pub fn validate(&self) -> (r: bool)
        ensures
            r == self@.valid(),
    {
        self.validate_type() && self.validate_subcomponents()
    }

    /// Whether every one of a list of post-aggregations is valid. Stops at the
    /// first that is not.
    pub fn validate_all(list: &Vec<PostAggregation>) -> (r: bool)
        ensures
            r == PostAggregationView::all_valid(PostAggregation::models(list)),
    {
        let mut i: usize = 0;
        while i < list.len()
            invariant
                i <= list.len(),
                forall|k: int| 0 <= k < i ==> (#[trigger] list@[k]).model().valid(),
            decreases list.len() - i,
        {
            if !list[i].validate() {
                assert(!PostAggregation::models(list)[i as int].valid());
                return false;
            }
            i = i + 1;
        }
        true
    }

    /// Whether every one of a list of post-aggregations that may be absent is
    /// valid.
    pub fn validate_opt_all(list: &Option<Vec<PostAggregation>>) -> (r: bool)
        ensures
            r == PostAggregationView::opt_all_valid(PostAggregation::opt_models(list)),
    {
        match list {
            Some(present) => PostAggregation::validate_all(present),
            None => true,
        }
    }

    /// Writes this post-aggregation as the document that stands for it on the
    /// wire.
    pub fn encode(&self) -> (v: serde_json::Value)
        ensures
            value_model(v) == self@.encode(),
    {
        proof {
            reveal(PostAggregationView::encode);
        }
        let mut members = new_object();
        match self {
            PostAggregation::Arithmetic { name, fn_, fields, ordering } => {
                put_literal(&mut members, Field::Type, &PostAggregationType::Arithmetic);
                put_text(&mut members, Field::Name, name.as_str());
                put_text(&mut members, Field::Fn, fn_.as_str());
                put_texts(&mut members, Field::Fields, fields);
                put_opt_text(&mut members, Field::Collation, ordering);
            },
            PostAggregation::FieldAccess { name, field_name } => {
                put_literal(&mut members, Field::Type, &PostAggregationType::FieldAccess);
                put_text(&mut members, Field::Name, name.as_str());
                put_text(&mut members, Field::FieldName, field_name.as_str());
            },
            PostAggregation::FinalizingFieldAccess { name, field_name } => {
                put_literal(&mut members, Field::Type, &PostAggregationType::FinalizingFieldAccess);
                put_text(&mut members, Field::Name, name.as_str());
                put_text(&mut members, Field::FieldName, field_name.as_str());
            },
            PostAggregation::DoubleGreatest { name, fields } => {
                put_literal(&mut members, Field::Type, &PostAggregationType::DoubleGreatest);
                put_text(&mut members, Field::Name, name.as_str());
                put_texts(&mut members, Field::Fields, fields);
            },
            PostAggregation::LongGreatest { name, fields } => {
                put_literal(&mut members, Field::Type, &PostAggregationType::LongGreatest);
                put_text(&mut members, Field::Name, name.as_str());
                put_texts(&mut members, Field::Fields, fields);
            },
            PostAggregation::DoubleLeast { name, fields } => {
                put_literal(&mut members, Field::Type, &PostAggregationType::DoubleLeast);
                put_text(&mut members, Field::Name, name.as_str());
                put_texts(&mut members, Field::Fields, fields);
            },
            PostAggregation::LongLeast { name, fields } => {
                put_literal(&mut members, Field::Type, &PostAggregationType::LongLeast);
                put_text(&mut members, Field::Name, name.as_str());
                put_texts(&mut members, Field::Fields, fields);
            },
            PostAggregation::JavaScript { name, field_names, function } => {
                put_literal(&mut members, Field::Type, &PostAggregationType::JavaScript);
                put_text(&mut members, Field::Name, name.as_str());
                put_texts(&mut members, Field::FieldNames, field_names);
                put_text(&mut members, Field::Function, function.as_str());
            },
            PostAggregation::HyperUniqueCardinality { name, field_name } => {
                put_literal(
                    &mut members,
                    Field::Type,
                    &PostAggregationType::HyperUniqueCardinality,
                );
                put_text(&mut members, Field::Name, name.as_str());
                put_text(&mut members, Field::FieldName, field_name.as_str());
            },
        }
        object_value(members)
    }

    /// Writes a list of post-aggregations as a JSON array.
    pub fn encode_all(list: &Vec<PostAggregation>) -> (v: serde_json::Value)
        ensures
            value_model(v) == PostAggregationView::encode_all(PostAggregation::models(list)),
    {
        let mut items: Vec<serde_json::Value> = Vec::new();
        let mut i: usize = 0;
        while i < list.len()
            invariant
                i <= list.len(),
                items@.len() == i,
                forall|k: int|
                    0 <= k < i ==> value_model(#[trigger] items@[k]) == list@[k].model().encode(),
            decreases list.len() - i,
        {
            items.push(list[i].encode());
            i = i + 1;
        }
        proof {
            assert(value_models(items@) =~= PostAggregationView::encode_all(PostAggregation::models(list))->Array_0);
        }
        array_value(items)
    }

    /// Stores a list of post-aggregations under `field`, unless it is absent.
    pub fn put_opt_all(members: &mut Object, field: Field, list: &Option<Vec<PostAggregation>>)
        ensures
            map_model(*final(members))
                == map_model(*old(members)).with_opt(
                    field,
                    PostAggregationView::encode_opt_all(PostAggregation::opt_models(list)),
                ),
    {
        match list {
            Some(present) => {
                put_opt_value(members, field, Some(PostAggregation::encode_all(present)))
            },
            None => put_opt_value(members, field, None),
        }
    }

    /// Reads the post-aggregation that a document stands for. Gives `None`
    /// where the document stands for none.
    pub fn decode(v: &serde_json::Value) -> (r: Option<PostAggregation>)
        ensures
            r.deep_view() == PostAggregationView::decode(value_model(*v)),
    {
        proof {
            reveal(PostAggregationView::decode);
        }
        match read_literal::<PostAggregationType>(v, Field::Type)? {
            PostAggregationType::Arithmetic => Some(PostAggregation::Arithmetic {
                name: read_text(v, Field::Name)?,
                fn_: read_text(v, Field::Fn)?,
                fields: read_texts(v, Field::Fields)?,
                ordering: read_opt_text(v, Field::Collation)?,
            }),
            PostAggregationType::Constant => None,
            PostAggregationType::JavaScript => Some(PostAggregation::JavaScript {
                name: read_text(v, Field::Name)?,
                field_names: read_texts(v, Field::FieldNames)?,
                function: read_text(v, Field::Function)?,
            }),
            PostAggregationType::HyperUniqueCardinality => Some(PostAggregation::HyperUniqueCardinality {
                name: read_text(v, Field::Name)?,
                field_name: read_text(v, Field::FieldName)?,
            }),
            PostAggregationType::FieldAccess => Some(PostAggregation::FieldAccess {
                name: read_text(v, Field::Name)?,
                field_name: read_text(v, Field::FieldName)?,
            }),
            PostAggregationType::FinalizingFieldAccess => Some(PostAggregation::FinalizingFieldAccess {
                name: read_text(v, Field::Name)?,
                field_name: read_text(v, Field::FieldName)?,
            }),
            PostAggregationType::DoubleGreatest => Some(PostAggregation::DoubleGreatest {
                name: read_text(v, Field::Name)?,
                fields: read_texts(v, Field::Fields)?,
            }),
            PostAggregationType::LongGreatest => Some(PostAggregation::LongGreatest {
                name: read_text(v, Field::Name)?,
                fields: read_texts(v, Field::Fields)?,
            }),
            PostAggregationType::DoubleLeast => Some(PostAggregation::DoubleLeast {
                name: read_text(v, Field::Name)?,
                fields: read_texts(v, Field::Fields)?,
            }),
            PostAggregationType::LongLeast => Some(PostAggregation::LongLeast {
                name: read_text(v, Field::Name)?,
                fields: read_texts(v, Field::Fields)?,
            }),
        }
    }

    /// Reads the list of post-aggregations that a JSON array stands for.
    pub fn decode_all(v: &serde_json::Value) -> (r: Option<Vec<PostAggregation>>)
        ensures
            r matches Some(list) ==> PostAggregationView::decode_all(value_model(*v)) == Some(
                PostAggregation::models(&list),
            ),
            r is None ==> PostAggregationView::decode_all(value_model(*v)) is None,
    {
        let items = v.as_array()?;
        let mut list: Vec<PostAggregation> = Vec::new();
        let mut i: usize = 0;
        while i < items.len()
            invariant
                i <= items.len(),
                list@.len() == i,
                value_model(*v) == JsonValue::Array(value_models(items@)),
                forall|k: int|
                    0 <= k < i ==> PostAggregationView::decode(value_model(#[trigger] items@[k])) == Some(
                        list@[k].model(),
                    ),
            decreases items.len() - i,
        {
            match PostAggregation::decode(&items[i]) {
                Some(item) => {
                    list.push(item);
                },
                None => {
                    assert(PostAggregationView::decode(value_models(items@)[i as int]) is None);
                    return None;
                },
            }
            i = i + 1;
        }
        proof {
            assert(PostAggregationView::decode_all(value_model(*v)).unwrap() =~= PostAggregation::models(&list));
        }
        Some(list)
    }

    /// Reads a list of post-aggregations that may stand under `field`. The
    /// outer `None` says that the member is there and stands for none.
    pub fn read_opt_all(
        v: &serde_json::Value,
        field: Field,
    ) -> (r: Option<Option<Vec<PostAggregation>>>)
        ensures
            r matches Some(list) ==> PostAggregationView::opt_all_at(value_model(*v), field) == Some(
                PostAggregation::opt_models(&list),
            ),
            r is None ==> PostAggregationView::opt_all_at(value_model(*v), field) is None,
    {
        match member_of(v, field) {
            Some(found) => Some(Some(PostAggregation::decode_all(found)?)),
            None => Some(None),
        }
    }

    /// A copy of this post-aggregation.
    pub fn duplicate(&self) -> (r: PostAggregation)
        ensures
            r@ == self@,
    {
        match self {
            PostAggregation::Arithmetic {
                name,
                fn_,
                fields,
                ordering,
            } => PostAggregation::Arithmetic {
                name: name.clone(),
                fn_: fn_.clone(),
                fields: copy_texts(fields),
                ordering: copy_opt_text(ordering),
            },
            PostAggregation::FieldAccess { name, field_name } => PostAggregation::FieldAccess {
                name: name.clone(),
                field_name: field_name.clone(),
            },
            PostAggregation::FinalizingFieldAccess {
                name,
                field_name,
            } => PostAggregation::FinalizingFieldAccess {
                name: name.clone(),
                field_name: field_name.clone(),
            },
            PostAggregation::DoubleGreatest { name, fields } => PostAggregation::DoubleGreatest {
                name: name.clone(),
                fields: copy_texts(fields),
            },
            PostAggregation::LongGreatest { name, fields } => PostAggregation::LongGreatest {
                name: name.clone(),
                fields: copy_texts(fields),
            },
            PostAggregation::DoubleLeast { name, fields } => PostAggregation::DoubleLeast {
                name: name.clone(),
                fields: copy_texts(fields),
            },
            PostAggregation::LongLeast { name, fields } => PostAggregation::LongLeast {
                name: name.clone(),
                fields: copy_texts(fields),
            },
            PostAggregation::JavaScript {
                name,
                field_names,
                function,
            } => PostAggregation::JavaScript {
                name: name.clone(),
                field_names: copy_texts(field_names),
                function: function.clone(),
            },
            PostAggregation::HyperUniqueCardinality {
                name,
                field_name,
            } => PostAggregation::HyperUniqueCardinality {
                name: name.clone(),
                field_name: field_name.clone(),
            },
        }
    }

    /// A copy of a list of post-aggregations.
    pub fn duplicate_all(list: &Vec<PostAggregation>) -> (r: Vec<PostAggregation>)
        ensures
            PostAggregation::models(&r) == PostAggregation::models(list),
    {
        let mut copy: Vec<PostAggregation> = Vec::new();
        let mut i: usize = 0;
        while i < list.len()
            invariant
                i <= list.len(),
                copy@.len() == i,
                forall|k: int|
                    0 <= k < i ==> (#[trigger] copy@[k]).model() == list@[k].model(),
            decreases list.len() - i,
        {
            copy.push(list[i].duplicate());
            i = i + 1;
        }
        proof {
            assert(PostAggregation::models(&copy) =~= PostAggregation::models(list));
        }
        copy
    }

    /// A copy of a list of post-aggregations that may be absent.
    pub fn duplicate_opt_all(
        list: &Option<Vec<PostAggregation>>,
    ) -> (r: Option<Vec<PostAggregation>>)
        ensures
            PostAggregation::opt_models(&r) == PostAggregation::opt_models(list),
    {
        match list {
            Some(present) => Some(PostAggregation::duplicate_all(present)),
            None => None,
        }
    }
}

impl Clone for PostAggregation {
    fn clone(&self) -> (r: Self)
        ensures
            r@ == self@,
    {
        self.duplicate()
    }
}

} // verus!
