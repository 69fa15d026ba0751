//! Conditions on the rows that a query reads.

use vstd::prelude::*;
use crate::json::{
    array_value, map_model, new_object, no_members, object_value, parse, same_text, value_model,
    value_models, JsonValue, Object,
};
use crate::literal::{encode_literal, lemma_literal_round_trip, outline, Literal};
use crate::query::components::extraction::{ExtractionFunction, ExtractionFunctionView};
use crate::query::components::helpers::{Expression, Interval, Sort};
use crate::query::components::searchquery::{SearchQuery, SearchQueryView};
use crate::wire::{
    copy_opt_text, copy_texts, get, lemma_bounded_empty, lemma_bounded_with,
    lemma_bounded_with_opt, lemma_get_empty, lemma_get_put, lemma_get_put_opt, lemma_get_some,
    lemma_texts_round_trip, literal_at, member_of, opt_flag, opt_flag_at, opt_literal,
    opt_literal_at, opt_text, opt_text_at, put_literal, put_opt_flag, put_opt_literal,
    put_opt_text, put_opt_value, put_text, put_texts, put_value, read_literal, read_opt_flag,
    read_opt_literal, read_opt_text, read_text, read_texts, text, text_at, texts, texts_at,
    Building, Field,
};

verus! {

broadcast use {
    lemma_bounded_empty,
    lemma_bounded_with,
    lemma_bounded_with_opt,
    lemma_get_empty,
    lemma_get_some,
    lemma_get_put,
    lemma_get_put_opt,
    lemma_literal_round_trip,
    lemma_texts_round_trip,
};

/// Discriminator of a filter.
#[derive(Debug, Clone, Copy, PartialEq, Eq, Structural)]
pub enum FilterType {
    Selector,
    ColumnComparison,
    Regex,
    And,
    Or,
    Not,
    Javascript,
    Search,
    In,
    Like,
    Bound,
    Interval,
    True,
    Expression,
}

impl Literal for FilterType {
    open spec fn literal(self) -> Seq<char> {
        match self {
            FilterType::Selector => "selector"@,
            FilterType::ColumnComparison => "column_comparison"@,
            FilterType::Regex => "regex"@,
            FilterType::And => "and"@,
            FilterType::Or => "or"@,
            FilterType::Not => "not"@,
            FilterType::Javascript => "javascript"@,
            FilterType::Search => "search"@,
            FilterType::In => "in"@,
            FilterType::Like => "like"@,
            FilterType::Bound => "bound"@,
            FilterType::Interval => "interval"@,
            FilterType::True => "true"@,
            FilterType::Expression => "expression"@,
        }
    }

    proof fn lemma_literal_injective(a: Self, b: Self) {
        reveal_strlit("selector");
        reveal_strlit("column_comparison");
        reveal_strlit("regex");
        reveal_strlit("and");
        reveal_strlit("or");
        reveal_strlit("not");
        reveal_strlit("javascript");
        reveal_strlit("search");
        reveal_strlit("in");
        reveal_strlit("like");
        reveal_strlit("bound");
        reveal_strlit("interval");
        reveal_strlit("true");
        reveal_strlit("expression");
        assert(outline(a.literal()) == outline(b.literal()) ==> a == b);
    }

    fn wire_name(&self) -> (r: &'static str) {
        match self {
            FilterType::Selector => "selector",
            FilterType::ColumnComparison => "column_comparison",
            FilterType::Regex => "regex",
            FilterType::And => "and",
            FilterType::Or => "or",
            FilterType::Not => "not",
            FilterType::Javascript => "javascript",
            FilterType::Search => "search",
            FilterType::In => "in",
            FilterType::Like => "like",
            FilterType::Bound => "bound",
            FilterType::Interval => "interval",
            FilterType::True => "true",
            FilterType::Expression => "expression",
        }
    }

    fn parse(text: &str) -> (r: Option<Self>) {
        if same_text(text, "selector") {
            Some(FilterType::Selector)
        } else if same_text(text, "column_comparison") {
            Some(FilterType::ColumnComparison)
        } else if same_text(text, "regex") {
            Some(FilterType::Regex)
        } else if same_text(text, "and") {
            Some(FilterType::And)
        } else if same_text(text, "or") {
            Some(FilterType::Or)
        } else if same_text(text, "not") {
            Some(FilterType::Not)
        } else if same_text(text, "javascript") {
            Some(FilterType::Javascript)
        } else if same_text(text, "search") {
            Some(FilterType::Search)
        } else if same_text(text, "in") {
            Some(FilterType::In)
        } else if same_text(text, "like") {
            Some(FilterType::Like)
        } else if same_text(text, "bound") {
            Some(FilterType::Bound)
        } else if same_text(text, "interval") {
            Some(FilterType::Interval)
        } else if same_text(text, "true") {
            Some(FilterType::True)
        } else if same_text(text, "expression") {
            Some(FilterType::Expression)
        } else {
            None
        }
    }
}

/// A condition on the rows that a query reads.
#[derive(Debug, PartialEq, Eq)]
pub enum Filter {
    /// The dimension equals `value`.
    Selector {
        type_: FilterType,
        dimension: String,
        value: String,
    },
    /// The dimensions listed are equal to each other.
    ColumnComparison {
        type_: FilterType,
        dimensions: Vec<String>,
    },
    /// The dimension matches `pattern`.
    Regex {
        type_: FilterType,
        dimension: String,
        pattern: String,
    },
    /// Every one of `fields` holds.
    And {
        type_: FilterType,
        fields: Vec<Box<Filter>>,
    },
    /// At least one of `fields` holds.
    Or {
        type_: FilterType,
        fields: Vec<Box<Filter>>,
    },
    /// `field` does not hold.
    Not {
        type_: FilterType,
        field: Box<Filter>,
    },
    /// A JavaScript function accepts the dimension.
    Javascript {
        type_: FilterType,
        dimension: String,
        function: String,
    },
    /// A search predicate holds of the dimension.
    Search {
        type_: FilterType,
        dimension: String,
        query: SearchQuery,
        extraction_function: Option<ExtractionFunction>,
    },
    /// The dimension equals one of `values`.
    In {
        type_: FilterType,
        dimension: String,
        values: Vec<String>,
    },
    /// The dimension matches a pattern with wildcards.
    Like {
        type_: FilterType,
        dimension: String,
        pattern: String,
        escape: Option<String>,
        extraction_function: Option<ExtractionFunction>,
    },
    /// The dimension lies between two bounds.
    Bound {
        type_: FilterType,
        dimension: String,
        lower: Option<String>,
        upper: Option<String>,
        lower_strict: Option<bool>,
        upper_strict: Option<bool>,
        ordering: Option<Sort>,
        extraction_function: Option<ExtractionFunction>,
    },
    /// The dimension, read as a time, lies in one of `intervals`.
    Interval {
        type_: FilterType,
        dimension: String,
        intervals: Vec<Interval>,
        extraction_function: Option<ExtractionFunction>,
    },
    /// Holds of every row.
    True {
        type_: FilterType,
    },
    /// An expression evaluates to true.
    Expression {
        type_: FilterType,
        expression: Expression,
    },
}

/// What a filter holds, as mathematics sees it.
pub enum FilterView {
    Selector {
        type_: FilterType,
        dimension: Seq<char>,
        value: Seq<char>,
    },
    ColumnComparison {
        type_: FilterType,
        dimensions: Seq<Seq<char>>,
    },
    Regex {
        type_: FilterType,
        dimension: Seq<char>,
        pattern: Seq<char>,
    },
    And {
        type_: FilterType,
        fields: Seq<FilterView>,
    },
    Or {
        type_: FilterType,
        fields: Seq<FilterView>,
    },
    Not {
        type_: FilterType,
        field: Box<FilterView>,
    },
    Javascript {
        type_: FilterType,
        dimension: Seq<char>,
        function: Seq<char>,
    },
    Search {
        type_: FilterType,
        dimension: Seq<char>,
        query: SearchQueryView,
        extraction_function: Option<ExtractionFunctionView>,
    },
    In {
        type_: FilterType,
        dimension: Seq<char>,
        values: Seq<Seq<char>>,
    },
    Like {
        type_: FilterType,
        dimension: Seq<char>,
        pattern: Seq<char>,
        escape: Option<Seq<char>>,
        extraction_function: Option<ExtractionFunctionView>,
    },
    Bound {
        type_: FilterType,
        dimension: Seq<char>,
        lower: Option<Seq<char>>,
        upper: Option<Seq<char>>,
        lower_strict: Option<bool>,
        upper_strict: Option<bool>,
        ordering: Option<Sort>,
        extraction_function: Option<ExtractionFunctionView>,
    },
    Interval {
        type_: FilterType,
        dimension: Seq<char>,
        intervals: Seq<Seq<char>>,
        extraction_function: Option<ExtractionFunctionView>,
    },
    True {
        type_: FilterType,
    },
    Expression {
        type_: FilterType,
        expression: Seq<char>,
    },
}

impl Filter {
    /// What this filter holds.
    pub open spec fn model(&self) -> FilterView
        decreases self,
    {
        match self {
            Filter::Selector { type_, dimension, value } => FilterView::Selector {
                type_: *type_,
                dimension: dimension@,
                value: value@,
            },
            Filter::ColumnComparison { type_, dimensions } => FilterView::ColumnComparison {
                type_: *type_,
                dimensions: dimensions.deep_view(),
            },
            Filter::Regex { type_, dimension, pattern } => FilterView::Regex {
                type_: *type_,
                dimension: dimension@,
                pattern: pattern@,
            },
            Filter::And { type_, fields } => FilterView::And {
                type_: *type_,
                fields: Filter::models(fields),
            },
            Filter::Or { type_, fields } => FilterView::Or {
                type_: *type_,
                fields: Filter::models(fields),
            },
            Filter::Not { type_, field } => FilterView::Not {
                type_: *type_,
                field: Box::new(field.model()),
            },
            Filter::Javascript { type_, dimension, function } => FilterView::Javascript {
                type_: *type_,
                dimension: dimension@,
                function: function@,
            },
            Filter::Search { type_, dimension, query, extraction_function } => FilterView::Search {
                type_: *type_,
                dimension: dimension@,
                query: query.model(),
                extraction_function: extraction_function.deep_view(),
            },
            Filter::In { type_, dimension, values } => FilterView::In {
                type_: *type_,
                dimension: dimension@,
                values: values.deep_view(),
            },
            Filter::Like {
                type_,
                dimension,
                pattern,
                escape,
                extraction_function,
            } => FilterView::Like {
                type_: *type_,
                dimension: dimension@,
                pattern: pattern@,
                escape: escape.deep_view(),
                extraction_function: extraction_function.deep_view(),
            },
            Filter::Bound {
                type_,
                dimension,
                lower,
                upper,
                lower_strict,
                upper_strict,
                ordering,
                extraction_function,
            } => FilterView::Bound {
                type_: *type_,
                dimension: dimension@,
                lower: lower.deep_view(),
                upper: upper.deep_view(),
                lower_strict: *lower_strict,
                upper_strict: *upper_strict,
                ordering: *ordering,
                extraction_function: extraction_function.deep_view(),
            },
            Filter::Interval {
                type_,
                dimension,
                intervals,
                extraction_function,
            } => FilterView::Interval {
                type_: *type_,
                dimension: dimension@,
                intervals: intervals.deep_view(),
                extraction_function: extraction_function.deep_view(),
            },
            Filter::True { type_ } => FilterView::True {
                type_: *type_,
            },
            Filter::Expression { type_, expression } => FilterView::Expression {
                type_: *type_,
                expression: expression@,
            },
        }
    }

    /// What a list of filters holds.
    pub open spec fn models(list: &Vec<Box<Filter>>) -> Seq<FilterView>
        decreases list,
    {
        Seq::new(
            list@.len(),
            |i: int|
                if 0 <= i < list@.len() {
                    list@[i].model()
                } else {
                    arbitrary()
                },
        )
    }
}

impl View for Filter {
    type V = FilterView;

    open spec fn view(&self) -> FilterView {
        self.model()
    }
}

impl DeepView for Filter {
    type V = FilterView;

    open spec fn deep_view(&self) -> FilterView {
        self.model()
    }
}

impl FilterView {
    /// The discriminator that a filter of this shape is meant to carry.
    pub open spec fn expected_type(self) -> FilterType {
        match self {
            FilterView::Selector { .. } => FilterType::Selector,
            FilterView::ColumnComparison { .. } => FilterType::ColumnComparison,
            FilterView::Regex { .. } => FilterType::Regex,
            FilterView::And { .. } => FilterType::And,
            FilterView::Or { .. } => FilterType::Or,
            FilterView::Not { .. } => FilterType::Not,
            FilterView::Javascript { .. } => FilterType::Javascript,
            FilterView::Search { .. } => FilterType::Search,
            FilterView::In { .. } => FilterType::In,
            FilterView::Like { .. } => FilterType::Like,
            FilterView::Bound { .. } => FilterType::Bound,
            FilterView::Interval { .. } => FilterType::Interval,
            FilterView::True { .. } => FilterType::True,
            FilterView::Expression { .. } => FilterType::Expression,
        }
    }

    /// The discriminator that this filter carries.
    pub open spec fn carried_type(self) -> FilterType {
        match self {
            FilterView::Selector { type_, .. } => type_,
            FilterView::ColumnComparison { type_, .. } => type_,
            FilterView::Regex { type_, .. } => type_,
            FilterView::And { type_, .. } => type_,
            FilterView::Or { type_, .. } => type_,
            FilterView::Not { type_, .. } => type_,
            FilterView::Javascript { type_, .. } => type_,
            FilterView::Search { type_, .. } => type_,
            FilterView::In { type_, .. } => type_,
            FilterView::Like { type_, .. } => type_,
            FilterView::Bound { type_, .. } => type_,
            FilterView::Interval { type_, .. } => type_,
            FilterView::True { type_, .. } => type_,
            FilterView::Expression { type_, .. } => type_,
        }
    }

    /// Whether the discriminator carried is the one the shape is meant to
    /// carry.
    pub open spec fn type_consistent(self) -> bool {
        self.carried_type() == self.expected_type()
    }

    /// Whether every component that this filter owns is valid.
    pub open spec fn subcomponents_valid(self) -> bool
        decreases self, 0nat,
    {
        match self {
            FilterView::And { fields, .. } => FilterView::all_valid(fields),
            FilterView::Or { fields, .. } => FilterView::all_valid(fields),
            FilterView::Not { field, .. } => field.valid(),
            FilterView::Search { query, extraction_function, .. } => {
                &&& query.valid()
                &&& ExtractionFunctionView::opt_valid(extraction_function)
            },
            FilterView::Like { extraction_function, .. } => {
                ExtractionFunctionView::opt_valid(extraction_function)
            },
            FilterView::Bound { extraction_function, .. } => {
                ExtractionFunctionView::opt_valid(extraction_function)
            },
            FilterView::Interval {
                extraction_function,
                ..
            } => ExtractionFunctionView::opt_valid(extraction_function),
            _ => true,
        }
    }

    /// Whether this filter is valid: its discriminator fits its shape, and
    /// every component it owns is valid.
    pub open spec fn valid(self) -> bool
        decreases self, 1nat,
    {
        self.type_consistent() && self.subcomponents_valid()
    }

    /// Whether a filter that may be absent is valid: an absent one is.
    pub open spec fn opt_valid(x: Option<FilterView>) -> bool {
        match x {
            Some(present) => present.valid(),
            None => true,
        }
    }

    /// Whether every one of a list of filters is valid. An empty list is.
    pub open spec fn all_valid(list: Seq<FilterView>) -> bool
        decreases list, 0nat,
    {
        forall|i: int| 0 <= i < list.len() ==> (#[trigger] list[i]).valid()
    }

    /// The document that stands for this filter on the wire.
    #[verifier::opaque]
    pub open spec fn encode(self) -> JsonValue
        decreases self, 0nat,
    {
        match self {
            FilterView::Selector { type_, dimension, value } => JsonValue::Object(
                no_members()
                    .with(Field::Type, encode_literal(type_))
                    .with(Field::Dimension, text(dimension))
                    .with(Field::Value, text(value)),
            ),
            FilterView::ColumnComparison { type_, dimensions } => JsonValue::Object(
                no_members()
                    .with(Field::Type, encode_literal(type_))
                    .with(Field::Dimensions, texts(dimensions)),
            ),
            FilterView::Regex { type_, dimension, pattern } => JsonValue::Object(
                no_members()
                    .with(Field::Type, encode_literal(type_))
                    .with(Field::Dimension, text(dimension))
                    .with(Field::Pattern, text(pattern)),
            ),
            FilterView::And { type_, fields } => JsonValue::Object(
                no_members()
                    .with(Field::Type, encode_literal(type_))
                    .with(Field::Fields, FilterView::encode_all(fields)),
            ),
            FilterView::Or { type_, fields } => JsonValue::Object(
                no_members()
                    .with(Field::Type, encode_literal(type_))
                    .with(Field::Fields, FilterView::encode_all(fields)),
            ),
            FilterView::Not { type_, field } => JsonValue::Object(
                no_members()
                    .with(Field::Type, encode_literal(type_))
                    .with(Field::Field, field.encode()),
            ),
            FilterView::Javascript { type_, dimension, function } => JsonValue::Object(
                no_members()
                    .with(Field::Type, encode_literal(type_))
                    .with(Field::Dimension, text(dimension))
                    .with(Field::Function, text(function)),
            ),
            FilterView::Search {
                type_,
                dimension,
                query,
                extraction_function,
            } => JsonValue::Object(
                no_members()
                    .with(Field::Type, encode_literal(type_))
                    .with(Field::Dimension, text(dimension))
                    .with(Field::Query, query.encode())
                    .with_opt(
                        Field::ExtractionFunction,
                        ExtractionFunctionView::encode_opt(extraction_function),
                    ),
            ),
            FilterView::In { type_, dimension, values } => JsonValue::Object(
                no_members()
                    .with(Field::Type, encode_literal(type_))
                    .with(Field::Dimension, text(dimension))
                    .with(Field::Values, texts(values)),
            ),
            FilterView::Like {
                type_,
                dimension,
                pattern,
                escape,
                extraction_function,
            } => JsonValue::Object(
                no_members()
                    .with(Field::Type, encode_literal(type_))
                    .with(Field::Dimension, text(dimension))
                    .with(Field::Pattern, text(pattern))
                    .with_opt(Field::Escape, opt_text(escape))
                    .with_opt(
                        Field::ExtractionFunction,
                        ExtractionFunctionView::encode_opt(extraction_function),
                    ),
            ),
            FilterView::Bound {
                type_,
                dimension,
                lower,
                upper,
                lower_strict,
                upper_strict,
                ordering,
                extraction_function,
            } => JsonValue::Object(
                no_members()
                    .with(Field::Type, encode_literal(type_))
                    .with(Field::Dimension, text(dimension))
                    .with_opt(Field::Lower, opt_text(lower))
                    .with_opt(Field::Upper, opt_text(upper))
                    .with_opt(Field::LowerStrict, opt_flag(lower_strict))
                    .with_opt(Field::UpperStrict, opt_flag(upper_strict))
                    .with_opt(Field::Collation, opt_literal(ordering))
                    .with_opt(
                        Field::ExtractionFunction,
                        ExtractionFunctionView::encode_opt(extraction_function),
                    ),
            ),
            FilterView::Interval {
                type_,
                dimension,
                intervals,
                extraction_function,
            } => JsonValue::Object(
                no_members()
                    .with(Field::Type, encode_literal(type_))
                    .with(Field::Dimension, text(dimension))
                    .with(Field::Intervals, texts(intervals))
                    .with_opt(
                        Field::ExtractionFunction,
                        ExtractionFunctionView::encode_opt(extraction_function),
                    ),
            ),
            FilterView::True { type_ } => JsonValue::Object(
                no_members()
                    .with(Field::Type, encode_literal(type_)),
            ),
            FilterView::Expression { type_, expression } => JsonValue::Object(
                no_members()
                    .with(Field::Type, encode_literal(type_))
                    .with(Field::Expression, text(expression)),
            ),
        }
    }

    /// The document of a filter that may be absent.
    pub open spec fn encode_opt(x: Option<FilterView>) -> Option<JsonValue> {
        match x {
            Some(present) => Some(present.encode()),
            None => None,
        }
    }

    /// The document of a list of filters: a JSON array with one element for
    /// each, in order.
    pub open spec fn encode_all(list: Seq<FilterView>) -> JsonValue
        decreases list, 0nat,
    {
        JsonValue::Array(
            Seq::new(
                list.len(),
                |i: int|
                    if 0 <= i < list.len() {
                        list[i].encode()
                    } else {
                        arbitrary()
                    },
            ),
        )
    }

    /// The filter that a document stands for, if it stands for one. Members
    /// that a filter does not have are passed over.
    #[verifier::opaque]
    pub open spec fn decode(doc: JsonValue) -> Option<FilterView>
        decreases doc, 1nat,
    {
        match literal_at::<FilterType>(doc, Field::Type) {
            Some(FilterType::Selector) => match (
                text_at(doc, Field::Dimension),
                text_at(doc, Field::Value),
            ) {
                (Some(dimension), Some(value)) => {
                    Some(FilterView::Selector { type_: FilterType::Selector, dimension, value })
                },
                _ => None,
            },
            Some(FilterType::ColumnComparison) => match texts_at(doc, Field::Dimensions) {
                Some(dimensions) => Some(FilterView::ColumnComparison {
                    type_: FilterType::ColumnComparison,
                    dimensions,
                }),
                None => None,
            },
            Some(FilterType::Regex) => match (
                text_at(doc, Field::Dimension),
                text_at(doc, Field::Pattern),
            ) {
                (Some(dimension), Some(pattern)) => {
                    Some(FilterView::Regex { type_: FilterType::Regex, dimension, pattern })
                },
                _ => None,
            },
            Some(FilterType::And) => match FilterView::all_at(doc, Field::Fields) {
                Some(fields) => Some(FilterView::And { type_: FilterType::And, fields }),
                None => None,
            },
            Some(FilterType::Or) => match FilterView::all_at(doc, Field::Fields) {
                Some(fields) => Some(FilterView::Or { type_: FilterType::Or, fields }),
                None => None,
            },
            Some(FilterType::Not) => match FilterView::at(doc, Field::Field) {
                Some(field) => {
                    Some(FilterView::Not { type_: FilterType::Not, field: Box::new(field) })
                },
                None => None,
            },
            Some(FilterType::Javascript) => match (
                text_at(doc, Field::Dimension),
                text_at(doc, Field::Function),
            ) {
                (Some(dimension), Some(function)) => {
                    Some(
                        FilterView::Javascript {
                            type_: FilterType::Javascript,
                            dimension,
                            function,
                        },
                    )
                },
                _ => None,
            },
            Some(FilterType::Search) => match (
                text_at(doc, Field::Dimension),
                SearchQueryView::at(doc, Field::Query),
                ExtractionFunctionView::opt_at(doc, Field::ExtractionFunction),
            ) {
                (Some(dimension), Some(query), Some(extraction_function)) => {
                    Some(FilterView::Search {
                        type_: FilterType::Search,
                        dimension,
                        query,
                        extraction_function,
                    })
                },
                _ => None,
            },
            Some(FilterType::In) => match (
                text_at(doc, Field::Dimension),
                texts_at(doc, Field::Values),
            ) {
                (Some(dimension), Some(values)) => {
                    Some(FilterView::In { type_: FilterType::In, dimension, values })
                },
                _ => None,
            },
            Some(FilterType::Like) => match (
                text_at(doc, Field::Dimension),
                text_at(doc, Field::Pattern),
                opt_text_at(doc, Field::Escape),
                ExtractionFunctionView::opt_at(doc, Field::ExtractionFunction),
            ) {
                (Some(dimension), Some(pattern), Some(escape), Some(extraction_function)) => {
                    Some(FilterView::Like {
                        type_: FilterType::Like,
                        dimension,
                        pattern,
                        escape,
                        extraction_function,
                    })
                },
                _ => None,
            },
            Some(FilterType::Bound) => match (
                text_at(doc, Field::Dimension),
                opt_text_at(doc, Field::Lower),
                opt_text_at(doc, Field::Upper),
                opt_flag_at(doc, Field::LowerStrict),
                opt_flag_at(doc, Field::UpperStrict),
                opt_literal_at::<Sort>(doc, Field::Collation),
                ExtractionFunctionView::opt_at(doc, Field::ExtractionFunction),
            ) {
                (
                    Some(dimension),
                    Some(lower),
                    Some(upper),
                    Some(lower_strict),
                    Some(upper_strict),
                    Some(ordering),
                    Some(extraction_function),
                ) => {
                    Some(FilterView::Bound {
                        type_: FilterType::Bound,
                        dimension,
                        lower,
                        upper,
                        lower_strict,
                        upper_strict,
                        ordering,
                        extraction_function,
                    })
                },
                _ => None,
            },
            Some(FilterType::Interval) => match (
                text_at(doc, Field::Dimension),
                texts_at(doc, Field::Intervals),
                ExtractionFunctionView::opt_at(doc, Field::ExtractionFunction),
            ) {
                (Some(dimension), Some(intervals), Some(extraction_function)) => {
                    Some(FilterView::Interval {
                        type_: FilterType::Interval,
                        dimension,
                        intervals,
                        extraction_function,
                    })
                },
                _ => None,
            },
            Some(FilterType::True) => Some(FilterView::True { type_: FilterType::True }),
            Some(FilterType::Expression) => match text_at(doc, Field::Expression) {
                Some(expression) => {
                    Some(FilterView::Expression { type_: FilterType::Expression, expression })
                },
                None => None,
            },
            None => None,
        }
    }

    /// The filter that a document must hold under `field`.
    pub open spec fn at(doc: JsonValue, field: Field) -> Option<FilterView>
        decreases doc, 0nat,
    {
        match get(doc, field) {
            Some(found) => FilterView::decode(found),
            None => None,
        }
    }

    /// The filter that a document may hold under `field`: the outer `None` says
    /// that the member is there and stands for none.
    pub open spec fn opt_at(doc: JsonValue, field: Field) -> Option<Option<FilterView>> {
        match get(doc, field) {
            Some(found) => match FilterView::decode(found) {
                Some(present) => Some(Some(present)),
                None => None,
            },
            None => Some(None),
        }
    }

    /// The list of filters that a document stands for, if it is a JSON array
    /// whose every element stands for one.
    pub open spec fn decode_all(doc: JsonValue) -> Option<Seq<FilterView>>
        decreases doc, 1nat,
    {
        match doc {
            JsonValue::Array(items) => if forall|i: int|
                0 <= i < items.len() ==> FilterView::decode(#[trigger] items[i]) is Some {
                Some(
                    Seq::new(
                        items.len(),
                        |i: int|
                            if 0 <= i < items.len() {
                                FilterView::decode(items[i]).unwrap()
                            } else {
                                arbitrary()
                            },
                    ),
                )
            } else {
                None
            },
            _ => None,
        }
    }

    /// The list of filters that a document must hold under `field`.
    pub open spec fn all_at(doc: JsonValue, field: Field) -> Option<Seq<FilterView>>
        decreases doc, 0nat,
    {
        match get(doc, field) {
            Some(found) => FilterView::decode_all(found),
            None => None,
        }
    }

    /// A filter whose discriminator is not the one that its shape is meant to
    /// carry fails the type check, and so is not valid, whatever else it holds.
    pub proof fn lemma_mistagged(self)
        requires
            self.carried_type() != self.expected_type(),
        ensures
            !self.type_consistent(),
            !self.valid(),
    {
    }

    /// Whatever document it is read from, a decoded filter is valid: decoding
    /// lets no mistagged value through.
    pub proof fn lemma_decoded_valid(doc: JsonValue)
        ensures
            FilterView::decode(doc) matches Some(x) ==> x.valid(),
        decreases doc, 1nat,
    {
        reveal(FilterView::decode);
        if get(doc, Field::Fields) is Some {
            FilterView::lemma_decoded_all_valid(get(doc, Field::Fields).unwrap());
        }
        if get(doc, Field::Field) is Some {
            FilterView::lemma_decoded_valid(get(doc, Field::Field).unwrap());
        }
        if get(doc, Field::Query) is Some {
            SearchQueryView::lemma_decoded_valid(get(doc, Field::Query).unwrap());
        }
        if get(doc, Field::ExtractionFunction) is Some {
            ExtractionFunctionView::lemma_decoded_valid(
                get(doc, Field::ExtractionFunction).unwrap(),
            );
        }
    }

    /// Whatever document it is read from, every one of a decoded list of
    /// filters is valid.
    pub proof fn lemma_decoded_all_valid(doc: JsonValue)
        ensures
            FilterView::decode_all(doc) matches Some(list) ==> FilterView::all_valid(list),
        decreases doc, 1nat,
    {
        reveal(FilterView::decode);
        if let JsonValue::Array(items) = doc {
            assert forall|i: int| 0 <= i < items.len() implies (
                FilterView::decode(#[trigger] items[i]) matches Some(x) ==> x.valid()
            ) by {
                FilterView::lemma_decoded_valid(items[i]);
            }
        }
    }

    /// Decoding the document of a valid filter gives the filter back.
    pub proof fn lemma_round_trip(self)
        requires
            self.valid(),
        ensures
            FilterView::decode(self.encode()) == Some(self),
            !(self.encode() is Null),
        decreases self, 0nat,
    {
        reveal(FilterView::encode);
        reveal(FilterView::decode);
        match self {
            FilterView::And { fields, .. } => {
                FilterView::lemma_round_trip_all(fields);
            },
            FilterView::Or { fields, .. } => {
                FilterView::lemma_round_trip_all(fields);
            },
            FilterView::Not { field, .. } => {
                field.lemma_round_trip();
            },
            FilterView::Search { query, extraction_function, .. } => {
                query.lemma_round_trip();
                if extraction_function is Some {
                    extraction_function.unwrap().lemma_round_trip();
                }
            },
            FilterView::Like { extraction_function, .. } => {
                if extraction_function is Some {
                    extraction_function.unwrap().lemma_round_trip();
                }
            },
            FilterView::Bound { extraction_function, .. } => {
                if extraction_function is Some {
                    extraction_function.unwrap().lemma_round_trip();
                }
            },
            FilterView::Interval { extraction_function, .. } => {
                if extraction_function is Some {
                    extraction_function.unwrap().lemma_round_trip();
                }
            },
            _ => {},
        }
    }

    /// Decoding the document of a list of valid filters gives the list back.
    pub proof fn lemma_round_trip_all(list: Seq<FilterView>)
        requires
            FilterView::all_valid(list),
        ensures
            FilterView::decode_all(FilterView::encode_all(list)) == Some(list),
        decreases list, 0nat,
    {
        reveal(FilterView::encode);
        reveal(FilterView::decode);
        let items = FilterView::encode_all(list)->Array_0;
        assert forall|i: int| 0 <= i < items.len() implies
            FilterView::decode(#[trigger] items[i]) == Some(list[i]) by {
            list[i].lemma_round_trip();
        }
        assert(FilterView::decode_all(FilterView::encode_all(list)).unwrap() =~= list);
    }
}

impl Filter {
    /// Whether the discriminator fits the shape.
    pub fn validate_type(&self) -> (r: bool)
        ensures
            r == self@.type_consistent(),
    {
        match self {
            Filter::Selector { type_, .. } => *type_ == FilterType::Selector,
            Filter::ColumnComparison { type_, .. } => *type_ == FilterType::ColumnComparison,
            Filter::Regex { type_, .. } => *type_ == FilterType::Regex,
            Filter::And { type_, .. } => *type_ == FilterType::And,
            Filter::Or { type_, .. } => *type_ == FilterType::Or,
            Filter::Not { type_, .. } => *type_ == FilterType::Not,
            Filter::Javascript { type_, .. } => *type_ == FilterType::Javascript,
            Filter::Search { type_, .. } => *type_ == FilterType::Search,
            Filter::In { type_, .. } => *type_ == FilterType::In,
            Filter::Like { type_, .. } => *type_ == FilterType::Like,
            Filter::Bound { type_, .. } => *type_ == FilterType::Bound,
            Filter::Interval { type_, .. } => *type_ == FilterType::Interval,
            Filter::True { type_, .. } => *type_ == FilterType::True,
            Filter::Expression { type_, .. } => *type_ == FilterType::Expression,
        }
    }

    /// Whether every component that this filter owns is valid.
    pub fn validate_subcomponents(&self) -> (r: bool)
        ensures
            r == self@.subcomponents_valid(),
        decreases self, 0nat,
    {
        match self {
            Filter::And { fields, .. } => Filter::validate_all(fields),
            Filter::Or { fields, .. } => Filter::validate_all(fields),
            Filter::Not { field, .. } => field.validate(),
            Filter::Search { query, extraction_function, .. } => {
                query.validate()
                    && ExtractionFunction::validate_opt(extraction_function)
            },
            Filter::Like { extraction_function, .. } => {
                ExtractionFunction::validate_opt(extraction_function)
            },
            Filter::Bound { extraction_function, .. } => {
                ExtractionFunction::validate_opt(extraction_function)
            },
            Filter::Interval { extraction_function, .. } => {
                ExtractionFunction::validate_opt(extraction_function)
            },
            _ => true,
        }
    }

    /// Whether this filter is valid.
    pub fn validate(&self) -> (r: bool)
        ensures
            r == self@.valid(),
        decreases self, 1nat,
    {
        self.validate_type() && self.validate_subcomponents()
    }

    /// Whether a filter that may be absent is valid.
    pub fn validate_opt(x: &Option<Filter>) -> (r: bool)
        ensures
            r == FilterView::opt_valid(x.deep_view()),
    {
        match x {
            Some(present) => present.validate(),
            None => true,
        }
    }

    /// Whether every one of a list of filters is valid. Stops at the first that
    /// is not.
    pub fn validate_all(list: &Vec<Box<Filter>>) -> (r: bool)
        ensures
            r == FilterView::all_valid(Filter::models(list)),
        decreases list, 0nat,
    {
        let mut i: usize = 0;
        while i < list.len()
            invariant
                i <= list.len(),
                forall|k: int| 0 <= k < i ==> (#[trigger] list@[k]).model().valid(),
            decreases list.len() - i,
        {
            if !list[i].validate() {
                assert(!Filter::models(list)[i as int].valid());
                return false;
            }
            i = i + 1;
        }
        true
    }

    /// Writes this filter as the document that stands for it on the wire.
    pub fn encode(&self) -> (v: serde_json::Value)
        ensures
            value_model(v) == self@.encode(),
        decreases self, 0nat,
    {
        proof {
            reveal(FilterView::encode);
        }
        let mut members = new_object();
        match self {
            Filter::Selector { type_, dimension, value } => {
                put_literal(&mut members, Field::Type, type_);
                put_text(&mut members, Field::Dimension, dimension.as_str());
                put_text(&mut members, Field::Value, value.as_str());
            },
            Filter::ColumnComparison { type_, dimensions } => {
                put_literal(&mut members, Field::Type, type_);
                put_texts(&mut members, Field::Dimensions, dimensions);
            },
            Filter::Regex { type_, dimension, pattern } => {
                put_literal(&mut members, Field::Type, type_);
                put_text(&mut members, Field::Dimension, dimension.as_str());
                put_text(&mut members, Field::Pattern, pattern.as_str());
            },
            Filter::And { type_, fields } => {
                put_literal(&mut members, Field::Type, type_);
                put_value(&mut members, Field::Fields, Filter::encode_all(fields));
            },
            Filter::Or { type_, fields } => {
                put_literal(&mut members, Field::Type, type_);
                put_value(&mut members, Field::Fields, Filter::encode_all(fields));
            },
            Filter::Not { type_, field } => {
                put_literal(&mut members, Field::Type, type_);
                put_value(&mut members, Field::Field, field.encode());
            },
            Filter::Javascript { type_, dimension, function } => {
                put_literal(&mut members, Field::Type, type_);
                put_text(&mut members, Field::Dimension, dimension.as_str());
                put_text(&mut members, Field::Function, function.as_str());
            },
            Filter::Search { type_, dimension, query, extraction_function } => {
                put_literal(&mut members, Field::Type, type_);
                put_text(&mut members, Field::Dimension, dimension.as_str());
                put_value(&mut members, Field::Query, query.encode());
                ExtractionFunction::put_opt(
                    &mut members,
                    Field::ExtractionFunction,
                    extraction_function,
                );
            },
            Filter::In { type_, dimension, values } => {
                put_literal(&mut members, Field::Type, type_);
                put_text(&mut members, Field::Dimension, dimension.as_str());
                put_texts(&mut members, Field::Values, values);
            },
            Filter::Like { type_, dimension, pattern, escape, extraction_function } => {
                put_literal(&mut members, Field::Type, type_);
                put_text(&mut members, Field::Dimension, dimension.as_str());
                put_text(&mut members, Field::Pattern, pattern.as_str());
                put_opt_text(&mut members, Field::Escape, escape);
                ExtractionFunction::put_opt(
                    &mut members,
                    Field::ExtractionFunction,
                    extraction_function,
                );
            },
            Filter::Bound {
                type_,
                dimension,
                lower,
                upper,
                lower_strict,
                upper_strict,
                ordering,
                extraction_function,
            } => {
                put_literal(&mut members, Field::Type, type_);
                put_text(&mut members, Field::Dimension, dimension.as_str());
                put_opt_text(&mut members, Field::Lower, lower);
                put_opt_text(&mut members, Field::Upper, upper);
                put_opt_flag(&mut members, Field::LowerStrict, *lower_strict);
                put_opt_flag(&mut members, Field::UpperStrict, *upper_strict);
                put_opt_literal(&mut members, Field::Collation, ordering);
                ExtractionFunction::put_opt(
                    &mut members,
                    Field::ExtractionFunction,
                    extraction_function,
                );
            },
            Filter::Interval { type_, dimension, intervals, extraction_function } => {
                put_literal(&mut members, Field::Type, type_);
                put_text(&mut members, Field::Dimension, dimension.as_str());
                put_texts(&mut members, Field::Intervals, intervals);
                ExtractionFunction::put_opt(
                    &mut members,
                    Field::ExtractionFunction,
                    extraction_function,
                );
            },
            Filter::True { type_ } => {
                put_literal(&mut members, Field::Type, type_);
            },
            Filter::Expression { type_, expression } => {
                put_literal(&mut members, Field::Type, type_);
                put_text(&mut members, Field::Expression, expression.as_str());
            },
        }
        object_value(members)
    }

    /// Stores a filter under `field`, unless it is absent.
    pub fn put_opt(members: &mut Object, field: Field, x: &Option<Filter>)
        ensures
            map_model(*final(members))
                == map_model(*old(members)).with_opt(field, FilterView::encode_opt(x.deep_view())),
    {
        match x {
            Some(present) => put_opt_value(members, field, Some(present.encode())),
            None => put_opt_value(members, field, None),
        }
    }

    /// Writes a list of filters as a JSON array.
    pub fn encode_all(list: &Vec<Box<Filter>>) -> (v: serde_json::Value)
        ensures
            value_model(v) == FilterView::encode_all(Filter::models(list)),
        decreases list, 0nat,
    {
        proof {
            reveal(FilterView::encode);
        }
        let mut items: Vec<serde_json::Value> = Vec::new();
        let mut i: usize = 0;
        while i < list.len()
            invariant
                i <= list.len(),
                items@.len() == i,
                forall|k: int|
                    0 <= k < i ==> value_model(#[trigger] items@[k]) == list@[k].model().encode(),
            decreases list.len() - i,
        {
            items.push(list[i].encode());
            i = i + 1;
        }
        proof {
            assert(value_models(items@) =~= FilterView::encode_all(Filter::models(list))->Array_0);
        }
        array_value(items)
    }

    /// Reads the filter that a document stands for. Gives `None` where the
    /// document stands for none.
    pub fn decode(v: &serde_json::Value) -> (r: Option<Filter>)
        ensures
            r.deep_view() == FilterView::decode(value_model(*v)),
        decreases value_model(*v), 1nat,
    {
        proof {
            reveal(FilterView::decode);
        }
        match read_literal::<FilterType>(v, Field::Type)? {
            FilterType::Selector => Some(Filter::Selector {
                type_: FilterType::Selector,
                dimension: read_text(v, Field::Dimension)?,
                value: read_text(v, Field::Value)?,
            }),
            FilterType::ColumnComparison => Some(Filter::ColumnComparison {
                type_: FilterType::ColumnComparison,
                dimensions: read_texts(v, Field::Dimensions)?,
            }),
            FilterType::Regex => Some(Filter::Regex {
                type_: FilterType::Regex,
                dimension: read_text(v, Field::Dimension)?,
                pattern: read_text(v, Field::Pattern)?,
            }),
            FilterType::And => Some(Filter::And {
                type_: FilterType::And,
                fields: Filter::read_all(v, Field::Fields)?,
            }),
            FilterType::Or => Some(Filter::Or {
                type_: FilterType::Or,
                fields: Filter::read_all(v, Field::Fields)?,
            }),
            FilterType::Not => Some(Filter::Not {
                type_: FilterType::Not,
                field: Box::new(Filter::read(v, Field::Field)?),
            }),
            FilterType::Javascript => Some(Filter::Javascript {
                type_: FilterType::Javascript,
                dimension: read_text(v, Field::Dimension)?,
                function: read_text(v, Field::Function)?,
            }),
            FilterType::Search => Some(Filter::Search {
                type_: FilterType::Search,
                dimension: read_text(v, Field::Dimension)?,
                query: SearchQuery::read(v, Field::Query)?,
                extraction_function: ExtractionFunction::read_opt(v, Field::ExtractionFunction)?,
            }),
            FilterType::In => Some(Filter::In {
                type_: FilterType::In,
                dimension: read_text(v, Field::Dimension)?,
                values: read_texts(v, Field::Values)?,
            }),
            FilterType::Like => Some(Filter::Like {
                type_: FilterType::Like,
                dimension: read_text(v, Field::Dimension)?,
                pattern: read_text(v, Field::Pattern)?,
                escape: read_opt_text(v, Field::Escape)?,
                extraction_function: ExtractionFunction::read_opt(v, Field::ExtractionFunction)?,
            }),
            FilterType::Bound => Some(Filter::Bound {
                type_: FilterType::Bound,
                dimension: read_text(v, Field::Dimension)?,
                lower: read_opt_text(v, Field::Lower)?,
                upper: read_opt_text(v, Field::Upper)?,
                lower_strict: read_opt_flag(v, Field::LowerStrict)?,
                upper_strict: read_opt_flag(v, Field::UpperStrict)?,
                ordering: read_opt_literal::<Sort>(v, Field::Collation)?,
                extraction_function: ExtractionFunction::read_opt(v, Field::ExtractionFunction)?,
            }),
            FilterType::Interval => Some(Filter::Interval {
                type_: FilterType::Interval,
                dimension: read_text(v, Field::Dimension)?,
                intervals: read_texts(v, Field::Intervals)?,
                extraction_function: ExtractionFunction::read_opt(v, Field::ExtractionFunction)?,
            }),
            FilterType::True => Some(Filter::True { type_: FilterType::True }),
            FilterType::Expression => Some(Filter::Expression {
                type_: FilterType::Expression,
                expression: read_text(v, Field::Expression)?,
            }),
        }
    }

    /// Reads a filter that must stand under `field`.
    pub fn read(v: &serde_json::Value, field: Field) -> (r: Option<Filter>)
        ensures
            r.deep_view() == FilterView::at(value_model(*v), field),
        decreases value_model(*v), 0nat,
    {
        proof {
            reveal(FilterView::decode);
        }
        let found = member_of(v, field)?;
        Filter::decode(found)
    }

    /// Reads a filter that may stand under `field`. The outer `None` says that
    /// the member is there and stands for none.
    pub fn read_opt(v: &serde_json::Value, field: Field) -> (r: Option<Option<Filter>>)
        ensures
            r.deep_view() == FilterView::opt_at(value_model(*v), field),
    {
        match member_of(v, field) {
            Some(found) => Some(Some(Filter::decode(found)?)),
            None => Some(None),
        }
    }

    /// Reads the list of filters that a JSON array stands for.
    pub fn decode_all(v: &serde_json::Value) -> (r: Option<Vec<Box<Filter>>>)
        ensures
            r matches Some(list) ==> FilterView::decode_all(value_model(*v)) == Some(
                Filter::models(&list),
            ),
            r is None ==> FilterView::decode_all(value_model(*v)) is None,
        decreases value_model(*v), 1nat,
    {
        proof {
            reveal(FilterView::decode);
        }
        let items = v.as_array()?;
        let mut list: Vec<Box<Filter>> = Vec::new();
        let mut i: usize = 0;
        while i < items.len()
            invariant
                i <= items.len(),
                list@.len() == i,
                value_model(*v) == JsonValue::Array(value_models(items@)),
                forall|k: int|
                    0 <= k < i ==> FilterView::decode(value_model(#[trigger] items@[k])) == Some(
                        list@[k].model(),
                    ),
            decreases items.len() - i,
        {
            match Filter::decode(&items[i]) {
                Some(item) => {
                    list.push(Box::new(item));
                },
                None => {
                    reveal(FilterView::decode);
                    assert(FilterView::decode(value_models(items@)[i as int]) is None);
                    return None;
                },
            }
            i = i + 1;
        }
        proof {
            assert(FilterView::decode_all(value_model(*v)).unwrap() =~= Filter::models(&list));
        }
        Some(list)
    }

    /// Reads a list of filters that must stand under `field`.
    pub fn read_all(v: &serde_json::Value, field: Field) -> (r: Option<Vec<Box<Filter>>>)
        ensures
            r matches Some(list) ==> FilterView::all_at(value_model(*v), field) == Some(
                Filter::models(&list),
            ),
            r is None ==> FilterView::all_at(value_model(*v), field) is None,
        decreases value_model(*v), 0nat,
    {
        proof {
            reveal(FilterView::decode);
        }
        let found = member_of(v, field)?;
        Filter::decode_all(found)
    }

    /// A copy of this filter.
    pub fn duplicate(&self) -> (r: Filter)
        ensures
            r@ == self@,
        decreases self, 0nat,
    {
        match self {
            Filter::Selector { type_, dimension, value } => Filter::Selector {
                type_: *type_,
                dimension: dimension.clone(),
                value: value.clone(),
            },
            Filter::ColumnComparison { type_, dimensions } => Filter::ColumnComparison {
                type_: *type_,
                dimensions: copy_texts(dimensions),
            },
            Filter::Regex { type_, dimension, pattern } => Filter::Regex {
                type_: *type_,
                dimension: dimension.clone(),
                pattern: pattern.clone(),
            },
            Filter::And { type_, fields } => Filter::And {
                type_: *type_,
                fields: Filter::duplicate_all(fields),
            },
            Filter::Or { type_, fields } => Filter::Or {
                type_: *type_,
                fields: Filter::duplicate_all(fields),
            },
            Filter::Not { type_, field } => Filter::Not {
                type_: *type_,
                field: Box::new(field.duplicate()),
            },
            Filter::Javascript { type_, dimension, function } => Filter::Javascript {
                type_: *type_,
                dimension: dimension.clone(),
                function: function.clone(),
            },
            Filter::Search { type_, dimension, query, extraction_function } => Filter::Search {
                type_: *type_,
                dimension: dimension.clone(),
                query: query.duplicate(),
                extraction_function: ExtractionFunction::duplicate_opt(extraction_function),
            },
            Filter::In { type_, dimension, values } => Filter::In {
                type_: *type_,
                dimension: dimension.clone(),
                values: copy_texts(values),
            },
            Filter::Like {
                type_,
                dimension,
                pattern,
                escape,
                extraction_function,
            } => Filter::Like {
                type_: *type_,
                dimension: dimension.clone(),
                pattern: pattern.clone(),
                escape: copy_opt_text(escape),
                extraction_function: ExtractionFunction::duplicate_opt(extraction_function),
            },
            Filter::Bound {
                type_,
                dimension,
                lower,
                upper,
                lower_strict,
                upper_strict,
                ordering,
                extraction_function,
            } => Filter::Bound {
                type_: *type_,
                dimension: dimension.clone(),
                lower: copy_opt_text(lower),
                upper: copy_opt_text(upper),
                lower_strict: *lower_strict,
                upper_strict: *upper_strict,
                ordering: *ordering,
                extraction_function: ExtractionFunction::duplicate_opt(extraction_function),
            },
            Filter::Interval {
                type_,
                dimension,
                intervals,
                extraction_function,
            } => Filter::Interval {
                type_: *type_,
                dimension: dimension.clone(),
                intervals: copy_texts(intervals),
                extraction_function: ExtractionFunction::duplicate_opt(extraction_function),
            },
            Filter::True { type_ } => Filter::True { type_: *type_ },
            Filter::Expression { type_, expression } => Filter::Expression {
                type_: *type_,
                expression: expression.clone(),
            },
        }
    }

    /// A copy of a filter that may be absent.
    pub fn duplicate_opt(x: &Option<Filter>) -> (r: Option<Filter>)
        ensures
            r.deep_view() == x.deep_view(),
    {
        match x {
            Some(present) => Some(present.duplicate()),
            None => None,
        }
    }

    /// A copy of a list of filters.
    pub fn duplicate_all(list: &Vec<Box<Filter>>) -> (r: Vec<Box<Filter>>)
        ensures
            Filter::models(&r) == Filter::models(list),
        decreases list, 0nat,
    {
        let mut copy: Vec<Box<Filter>> = Vec::new();
        let mut i: usize = 0;
        while i < list.len()
            invariant
                i <= list.len(),
                copy@.len() == i,
                forall|k: int|
                    0 <= k < i ==> (#[trigger] copy@[k]).model() == list@[k].model(),
            decreases list.len() - i,
        {
            copy.push(Box::new(list[i].duplicate()));
            i = i + 1;
        }
        proof {
            assert(Filter::models(&copy) =~= Filter::models(list));
        }
        copy
    }
}

impl Clone for Filter {
    fn clone(&self) -> (r: Self)
        ensures
            r@ == self@,
    {
        self.duplicate()
    }
}

} // verus!
