//! Functions applied to dimension values.

use vstd::prelude::*;
use crate::json::{
    array_value, map_model, new_object, no_members, object_value, parse, same_text, value_model,
    value_models, JsonValue, Object,
};
use crate::literal::{encode_literal, lemma_literal_round_trip, outline, Literal};
use crate::query::components::granularity::Granularity;
use crate::query::components::searchquery::{SearchQuery, SearchQueryView};
use crate::query::number::IntegerNumber;
use crate::wire::{
    copy_opt_text, flag, flag_at, get, lemma_bounded_empty, lemma_bounded_with,
    lemma_bounded_with_opt, lemma_get_empty, lemma_get_put, lemma_get_put_opt, lemma_get_some,
    literal_at, member_of, opt_flag, opt_flag_at, opt_literal, opt_literal_at, opt_text,
    opt_text_at, opt_unsigned, opt_unsigned_at, put_flag, put_literal, put_opt_flag,
    put_opt_literal, put_opt_text, put_opt_unsigned, put_opt_value, put_text, put_unsigned,
    put_value, read_flag, read_literal, read_opt_flag, read_opt_literal, read_opt_text,
    read_opt_unsigned, read_text, read_unsigned, text, text_at, unsigned, unsigned_at, Building,
    Field,
};

verus! {

broadcast use {
    lemma_bounded_empty,
    lemma_bounded_with,
    lemma_bounded_with_opt,
    lemma_get_empty,
    lemma_get_some,
    lemma_get_put,
    lemma_get_put_opt,
    lemma_literal_round_trip,
};

/// Discriminator of an extraction function.
#[derive(Debug, Clone, Copy, PartialEq, Eq, Structural)]
pub enum ExtractionFunctionType {
    Regex,
    Partial,
    SearchQuery,
    Substring,
    Strlen,
    TimeFormat,
    TimeParsing,
    JavaScript,
    Cascade,
    StringFormat,
    Upper,
    Lower,
    Bucket,
}

impl Literal for ExtractionFunctionType {
    open spec fn literal(self) -> Seq<char> {
        match self {
            ExtractionFunctionType::Regex => "Regex"@,
            ExtractionFunctionType::Partial => "Partial"@,
            ExtractionFunctionType::SearchQuery => "SearchQuery"@,
            ExtractionFunctionType::Substring => "Substring"@,
            ExtractionFunctionType::Strlen => "Strlen"@,
            ExtractionFunctionType::TimeFormat => "TimeFormat"@,
            ExtractionFunctionType::TimeParsing => "TimeParsing"@,
            ExtractionFunctionType::JavaScript => "JavaScript"@,
            ExtractionFunctionType::Cascade => "Cascade"@,
            ExtractionFunctionType::StringFormat => "StringFormat"@,
            ExtractionFunctionType::Upper => "Upper"@,
            ExtractionFunctionType::Lower => "Lower"@,
            ExtractionFunctionType::Bucket => "Bucket"@,
        }
    }

    proof fn lemma_literal_injective(a: Self, b: Self) {
        reveal_strlit("Regex");
        reveal_strlit("Partial");
        reveal_strlit("SearchQuery");
        reveal_strlit("Substring");
        reveal_strlit("Strlen");
        reveal_strlit("TimeFormat");
        reveal_strlit("TimeParsing");
        reveal_strlit("JavaScript");
        reveal_strlit("Cascade");
        reveal_strlit("StringFormat");
        reveal_strlit("Upper");
        reveal_strlit("Lower");
        reveal_strlit("Bucket");
        assert(outline(a.literal()) == outline(b.literal()) ==> a == b);
    }

    fn wire_name(&self) -> (r: &'static str) {
        match self {
            ExtractionFunctionType::Regex => "Regex",
            ExtractionFunctionType::Partial => "Partial",
            ExtractionFunctionType::SearchQuery => "SearchQuery",
            ExtractionFunctionType::Substring => "Substring",
            ExtractionFunctionType::Strlen => "Strlen",
            ExtractionFunctionType::TimeFormat => "TimeFormat",
            ExtractionFunctionType::TimeParsing => "TimeParsing",
            ExtractionFunctionType::JavaScript => "JavaScript",
            ExtractionFunctionType::Cascade => "Cascade",
            ExtractionFunctionType::StringFormat => "StringFormat",
            ExtractionFunctionType::Upper => "Upper",
            ExtractionFunctionType::Lower => "Lower",
            ExtractionFunctionType::Bucket => "Bucket",
        }
    }

    fn parse(text: &str) -> (r: Option<Self>) {
        if same_text(text, "Regex") {
            Some(ExtractionFunctionType::Regex)
        } else if same_text(text, "Partial") {
            Some(ExtractionFunctionType::Partial)
        } else if same_text(text, "SearchQuery") {
            Some(ExtractionFunctionType::SearchQuery)
        } else if same_text(text, "Substring") {
            Some(ExtractionFunctionType::Substring)
        } else if same_text(text, "Strlen") {
            Some(ExtractionFunctionType::Strlen)
        } else if same_text(text, "TimeFormat") {
            Some(ExtractionFunctionType::TimeFormat)
        } else if same_text(text, "TimeParsing") {
            Some(ExtractionFunctionType::TimeParsing)
        } else if same_text(text, "JavaScript") {
            Some(ExtractionFunctionType::JavaScript)
        } else if same_text(text, "Cascade") {
            Some(ExtractionFunctionType::Cascade)
        } else if same_text(text, "StringFormat") {
            Some(ExtractionFunctionType::StringFormat)
        } else if same_text(text, "Upper") {
            Some(ExtractionFunctionType::Upper)
        } else if same_text(text, "Lower") {
            Some(ExtractionFunctionType::Lower)
        } else if same_text(text, "Bucket") {
            Some(ExtractionFunctionType::Bucket)
        } else {
            None
        }
    }
}

/// A function applied to a dimension's value before it is used.
#[derive(Debug, PartialEq, Eq)]
#[allow(inconsistent_fields)]
pub enum ExtractionFunction {
    /// The group `index` of the first match of `expr`.
    Regex {
        type_: ExtractionFunctionType,
        expr: String,
        index: IntegerNumber,
        replace_missing_value: bool,
        replace_missing_value_with: Option<String>,
    },
    /// The value itself where `expr` matches it, nothing otherwise.
    Partial {
        type_: ExtractionFunctionType,
        expr: String,
    },
    /// The value itself where `query` holds of it, nothing otherwise.
    SearchQuery {
        type_: ExtractionFunctionType,
        query: SearchQuery,
    },
    /// The part of the value that starts at `index`.
    Substring {
        type_: ExtractionFunctionType,
        index: IntegerNumber,
        length: Option<IntegerNumber>,
    },
    /// The length of the value.
    Strlen {
        type_: ExtractionFunctionType,
    },
    /// The time of the row, formatted.
    TimeFormat {
        type_: ExtractionFunctionType,
        format: Option<String>,
        time_zone: Option<String>,
        locale: Option<String>,
        granularity: Option<Granularity>,
        as_millis: Option<bool>,
    },
    /// The value read as a time in one format and written in another.
    TimeParsing {
        type_: ExtractionFunctionType,
        time_format: String,
        result_format: String,
        joda: Option<bool>,
    },
    /// The result of a JavaScript function.
    JavaScript {
        type_: ExtractionFunctionType,
        function: String,
        injective: Option<bool>,
    },
    /// The functions listed, applied one after the other.
    Cascade {
        type_: ExtractionFunctionType,
        extraction_fns: Vec<ExtractionFunction>,
    },
    /// The value laid out by a format string.
    StringFormat {
        type_: ExtractionFunctionType,
        format: String,
        null_handling: Option<String>,
    },
    /// The value in upper case.
    Upper {
        type_: ExtractionFunctionType,
        locale: Option<String>,
    },
    /// The value in lower case.
    Lower {
        type_: ExtractionFunctionType,
        locale: Option<String>,
    },
    /// The lower end of the numeric bucket that holds the value.
    Bucket {
        type_: ExtractionFunctionType,
        size: IntegerNumber,
        offset: IntegerNumber,
    },
}

/// What an extraction function holds, as mathematics sees it.
#[allow(inconsistent_fields)]
pub enum ExtractionFunctionView {
    Regex {
        type_: ExtractionFunctionType,
        expr: Seq<char>,
        index: u64,
        replace_missing_value: bool,
        replace_missing_value_with: Option<Seq<char>>,
    },
    Partial {
        type_: ExtractionFunctionType,
        expr: Seq<char>,
    },
    SearchQuery {
        type_: ExtractionFunctionType,
        query: SearchQueryView,
    },
    Substring {
        type_: ExtractionFunctionType,
        index: u64,
        length: Option<u64>,
    },
    Strlen {
        type_: ExtractionFunctionType,
    },
    TimeFormat {
        type_: ExtractionFunctionType,
        format: Option<Seq<char>>,
        time_zone: Option<Seq<char>>,
        locale: Option<Seq<char>>,
        granularity: Option<Granularity>,
        as_millis: Option<bool>,
    },
    TimeParsing {
        type_: ExtractionFunctionType,
        time_format: Seq<char>,
        result_format: Seq<char>,
        joda: Option<bool>,
    },
    JavaScript {
        type_: ExtractionFunctionType,
        function: Seq<char>,
        injective: Option<bool>,
    },
    Cascade {
        type_: ExtractionFunctionType,
        extraction_fns: Seq<ExtractionFunctionView>,
    },
    StringFormat {
        type_: ExtractionFunctionType,
        format: Seq<char>,
        null_handling: Option<Seq<char>>,
    },
    Upper {
        type_: ExtractionFunctionType,
        locale: Option<Seq<char>>,
    },
    Lower {
        type_: ExtractionFunctionType,
        locale: Option<Seq<char>>,
    },
    Bucket {
        type_: ExtractionFunctionType,
        size: u64,
        offset: u64,
    },
}

impl ExtractionFunction {
    /// What this extraction function holds.
    pub open spec fn model(&self) -> ExtractionFunctionView
        decreases self,
    {
        match self {
            ExtractionFunction::Regex {
                type_,
                expr,
                index,
                replace_missing_value,
                replace_missing_value_with,
            } => ExtractionFunctionView::Regex {
                type_: *type_,
                expr: expr@,
                index: *index,
                replace_missing_value: *replace_missing_value,
                replace_missing_value_with: replace_missing_value_with.deep_view(),
            },
            ExtractionFunction::Partial { type_, expr } => ExtractionFunctionView::Partial {
                type_: *type_,
                expr: expr@,
            },
            ExtractionFunction::SearchQuery {
                type_,
                query,
            } => ExtractionFunctionView::SearchQuery {
                type_: *type_,
                query: query.model(),
            },
            ExtractionFunction::Substring {
                type_,
                index,
                length,
            } => ExtractionFunctionView::Substring {
                type_: *type_,
                index: *index,
                length: *length,
            },
            ExtractionFunction::Strlen { type_ } => ExtractionFunctionView::Strlen {
                type_: *type_,
            },
            ExtractionFunction::TimeFormat {
                type_,
                format,
                time_zone,
                locale,
                granularity,
                as_millis,
            } => ExtractionFunctionView::TimeFormat {
                type_: *type_,
                format: format.deep_view(),
                time_zone: time_zone.deep_view(),
                locale: locale.deep_view(),
                granularity: *granularity,
                as_millis: *as_millis,
            },
            ExtractionFunction::TimeParsing {
                type_,
                time_format,
                result_format,
                joda,
            } => ExtractionFunctionView::TimeParsing {
                type_: *type_,
                time_format: time_format@,
                result_format: result_format@,
                joda: *joda,
            },
            ExtractionFunction::JavaScript {
                type_,
                function,
                injective,
            } => ExtractionFunctionView::JavaScript {
                type_: *type_,
                function: function@,
                injective: *injective,
            },
            ExtractionFunction::Cascade {
                type_,
                extraction_fns,
            } => ExtractionFunctionView::Cascade {
                type_: *type_,
                extraction_fns: ExtractionFunction::models(extraction_fns),
            },
            ExtractionFunction::StringFormat {
                type_,
                format,
                null_handling,
            } => ExtractionFunctionView::StringFormat {
                type_: *type_,
                format: format@,
                null_handling: null_handling.deep_view(),
            },
            ExtractionFunction::Upper { type_, locale } => ExtractionFunctionView::Upper {
                type_: *type_,
                locale: locale.deep_view(),
            },
            ExtractionFunction::Lower { type_, locale } => ExtractionFunctionView::Lower {
                type_: *type_,
                locale: locale.deep_view(),
            },
            ExtractionFunction::Bucket { type_, size, offset } => ExtractionFunctionView::Bucket {
                type_: *type_,
                size: *size,
                offset: *offset,
            },
        }
    }

    /// What a list of extraction functions holds.
    pub open spec fn models(list: &Vec<ExtractionFunction>) -> Seq<ExtractionFunctionView>
        decreases list,
    {
        Seq::new(
            list@.len(),
            |i: int|
                if 0 <= i < list@.len() {
                    list@[i].model()
                } else {
                    arbitrary()
                },
        )
    }
}

impl View for ExtractionFunction {
    type V = ExtractionFunctionView;

    open spec fn view(&self) -> ExtractionFunctionView {
        self.model()
    }
}

impl DeepView for ExtractionFunction {
    type V = ExtractionFunctionView;

    open spec fn deep_view(&self) -> ExtractionFunctionView {
        self.model()
    }
}

impl ExtractionFunctionView {
    /// The discriminator that a extraction function of this shape is meant to
    /// carry.
    pub open spec fn expected_type(self) -> ExtractionFunctionType {
        match self {
            ExtractionFunctionView::Regex { .. } => ExtractionFunctionType::Regex,
            ExtractionFunctionView::Partial { .. } => ExtractionFunctionType::Partial,
            ExtractionFunctionView::SearchQuery { .. } => ExtractionFunctionType::SearchQuery,
            ExtractionFunctionView::Substring { .. } => ExtractionFunctionType::Substring,
            ExtractionFunctionView::Strlen { .. } => ExtractionFunctionType::Strlen,
            ExtractionFunctionView::TimeFormat { .. } => ExtractionFunctionType::TimeFormat,
            ExtractionFunctionView::TimeParsing { .. } => ExtractionFunctionType::TimeParsing,
            ExtractionFunctionView::JavaScript { .. } => ExtractionFunctionType::JavaScript,
            ExtractionFunctionView::Cascade { .. } => ExtractionFunctionType::Cascade,
            ExtractionFunctionView::StringFormat { .. } => ExtractionFunctionType::StringFormat,
            ExtractionFunctionView::Upper { .. } => ExtractionFunctionType::Upper,
            ExtractionFunctionView::Lower { .. } => ExtractionFunctionType::Lower,
            ExtractionFunctionView::Bucket { .. } => ExtractionFunctionType::Bucket,
        }
    }

    /// The discriminator that this extraction function carries.
    pub open spec fn carried_type(self) -> ExtractionFunctionType {
        match self {
            ExtractionFunctionView::Regex { type_, .. } => type_,
            ExtractionFunctionView::Partial { type_, .. } => type_,
            ExtractionFunctionView::SearchQuery { type_, .. } => type_,
            ExtractionFunctionView::Substring { type_, .. } => type_,
            ExtractionFunctionView::Strlen { type_, .. } => type_,
            ExtractionFunctionView::TimeFormat { type_, .. } => type_,
            ExtractionFunctionView::TimeParsing { type_, .. } => type_,
            ExtractionFunctionView::JavaScript { type_, .. } => type_,
            ExtractionFunctionView::Cascade { type_, .. } => type_,
            ExtractionFunctionView::StringFormat { type_, .. } => type_,
            ExtractionFunctionView::Upper { type_, .. } => type_,
            ExtractionFunctionView::Lower { type_, .. } => type_,
            ExtractionFunctionView::Bucket { type_, .. } => type_,
        }
    }

    /// Whether the discriminator carried is the one the shape is meant to
    /// carry.
    pub open spec fn type_consistent(self) -> bool {
        self.carried_type() == self.expected_type()
    }

    /// Whether every component that this extraction function owns is valid.
    pub open spec fn subcomponents_valid(self) -> bool
        decreases self, 0nat,
    {
        match self {
            ExtractionFunctionView::SearchQuery { query, .. } => query.valid(),
            ExtractionFunctionView::Cascade {
                extraction_fns,
                ..
            } => ExtractionFunctionView::all_valid(extraction_fns),
            _ => true,
        }
    }

    /// Whether this extraction function is valid: its discriminator fits its
    /// shape, and every component it owns is valid.
    pub open spec fn valid(self) -> bool
        decreases self, 1nat,
    {
        self.type_consistent() && self.subcomponents_valid()
    }

    /// Whether an extraction function that may be absent is valid: an absent
    /// one is.
    pub open spec fn opt_valid(x: Option<ExtractionFunctionView>) -> bool {
        match x {
            Some(present) => present.valid(),
            None => true,
        }
    }

    /// Whether every one of a list of extraction functions is valid. An empty
    /// list is.
    pub open spec fn all_valid(list: Seq<ExtractionFunctionView>) -> bool
        decreases list, 0nat,
    {
        forall|i: int| 0 <= i < list.len() ==> (#[trigger] list[i]).valid()
    }

    /// The document that stands for this extraction function on the wire.
    #[verifier::opaque]
    pub open spec fn encode(self) -> JsonValue
        decreases self, 0nat,
    {
        match self {
            ExtractionFunctionView::Regex {
                type_,
                expr,
                index,
                replace_missing_value,
                replace_missing_value_with,
            } => JsonValue::Object(
                no_members()
                    .with(Field::Type, encode_literal(type_))
                    .with(Field::Expr, text(expr))
                    .with(Field::Index, unsigned(index))
                    .with(Field::ReplaceMissingValue, flag(replace_missing_value))
                    .with_opt(Field::ReplaceMissingValueWith, opt_text(replace_missing_value_with)),
            ),
            ExtractionFunctionView::Partial { type_, expr } => JsonValue::Object(
                no_members()
                    .with(Field::Type, encode_literal(type_))
                    .with(Field::Expr, text(expr)),
            ),
            ExtractionFunctionView::SearchQuery { type_, query } => JsonValue::Object(
                no_members()
                    .with(Field::Type, encode_literal(type_))
                    .with(Field::Query, query.encode()),
            ),
            ExtractionFunctionView::Substring { type_, index, length } => JsonValue::Object(
                no_members()
                    .with(Field::Type, encode_literal(type_))
                    .with(Field::Index, unsigned(index))
                    .with_opt(Field::Length, opt_unsigned(length)),
            ),
            ExtractionFunctionView::Strlen { type_ } => JsonValue::Object(
                no_members()
                    .with(Field::Type, encode_literal(type_)),
            ),
            ExtractionFunctionView::TimeFormat {
                type_,
                format,
                time_zone,
                locale,
                granularity,
                as_millis,
            } => JsonValue::Object(
                no_members()
                    .with(Field::Type, encode_literal(type_))
                    .with_opt(Field::Format, opt_text(format))
                    .with_opt(Field::TimeZone, opt_text(time_zone))
                    .with_opt(Field::Locale, opt_text(locale))
                    .with_opt(Field::Granularity, opt_literal(granularity))
                    .with_opt(Field::AsMillis, opt_flag(as_millis)),
            ),
            ExtractionFunctionView::TimeParsing {
                type_,
                time_format,
                result_format,
                joda,
            } => JsonValue::Object(
                no_members()
                    .with(Field::Type, encode_literal(type_))
                    .with(Field::TimeFormat, text(time_format))
                    .with(Field::ResultFormat, text(result_format))
                    .with_opt(Field::Joda, opt_flag(joda)),
            ),
            ExtractionFunctionView::JavaScript { type_, function, injective } => JsonValue::Object(
                no_members()
                    .with(Field::Type, encode_literal(type_))
                    .with(Field::Function, text(function))
                    .with_opt(Field::Injective, opt_flag(injective)),
            ),
            ExtractionFunctionView::Cascade { type_, extraction_fns } => JsonValue::Object(
                no_members()
                    .with(Field::Type, encode_literal(type_))
                    .with(Field::ExtractionFns, ExtractionFunctionView::encode_all(extraction_fns)),
            ),
            ExtractionFunctionView::StringFormat {
                type_,
                format,
                null_handling,
            } => JsonValue::Object(
                no_members()
                    .with(Field::Type, encode_literal(type_))
                    .with(Field::Format, text(format))
                    .with_opt(Field::NullHandling, opt_text(null_handling)),
            ),
            ExtractionFunctionView::Upper { type_, locale } => JsonValue::Object(
                no_members()
                    .with(Field::Type, encode_literal(type_))
                    .with_opt(Field::Locale, opt_text(locale)),
            ),
            ExtractionFunctionView::Lower { type_, locale } => JsonValue::Object(
                no_members()
                    .with(Field::Type, encode_literal(type_))
                    .with_opt(Field::Locale, opt_text(locale)),
            ),
            ExtractionFunctionView::Bucket { type_, size, offset } => JsonValue::Object(
                no_members()
                    .with(Field::Type, encode_literal(type_))
                    .with(Field::Size, unsigned(size))
                    .with(Field::Offset, unsigned(offset)),
            ),
        }
    }

    /// The document of an extraction function that may be absent.
    pub open spec fn encode_opt(x: Option<ExtractionFunctionView>) -> Option<JsonValue> {
        match x {
            Some(present) => Some(present.encode()),
            None => None,
        }
    }

    /// The document of a list of extraction functions: a JSON array with one
    /// element for each, in order.
    pub open spec fn encode_all(list: Seq<ExtractionFunctionView>) -> JsonValue
        decreases list, 0nat,
    {
        JsonValue::Array(
            Seq::new(
                list.len(),
                |i: int|
                    if 0 <= i < list.len() {
                        list[i].encode()
                    } else {
                        arbitrary()
                    },
            ),
        )
    }

    /// The extraction function that a document stands for, if it stands for
    /// one. Members that an extraction function does not have are passed over.
    #[verifier::opaque]
    pub open spec fn decode(doc: JsonValue) -> Option<ExtractionFunctionView>
        decreases doc, 1nat,
    {
        match literal_at::<ExtractionFunctionType>(doc, Field::Type) {
            Some(ExtractionFunctionType::Regex) => match (
                text_at(doc, Field::Expr),
                unsigned_at(doc, Field::Index),
                flag_at(doc, Field::ReplaceMissingValue),
                opt_text_at(doc, Field::ReplaceMissingValueWith),
            ) {
                (
                    Some(expr),
                    Some(index),
                    Some(replace_missing_value),
                    Some(replace_missing_value_with),
                ) => {
                    Some(ExtractionFunctionView::Regex {
                        type_: ExtractionFunctionType::Regex,
                        expr,
                        index,
                        replace_missing_value,
                        replace_missing_value_with,
                    })
                },
                _ => None,
            },
            Some(ExtractionFunctionType::Partial) => match text_at(doc, Field::Expr) {
                Some(expr) => Some(ExtractionFunctionView::Partial {
                    type_: ExtractionFunctionType::Partial,
                    expr,
                }),
                None => None,
            },
            Some(ExtractionFunctionType::SearchQuery) => match SearchQueryView::at(doc, Field::Query) {
                Some(query) => Some(ExtractionFunctionView::SearchQuery {
                    type_: ExtractionFunctionType::SearchQuery,
                    query,
                }),
                None => None,
            },
            Some(ExtractionFunctionType::Substring) => match (
                unsigned_at(doc, Field::Index),
                opt_unsigned_at(doc, Field::Length),
            ) {
                (Some(index), Some(length)) => {
                    Some(ExtractionFunctionView::Substring {
                        type_: ExtractionFunctionType::Substring,
                        index,
                        length,
                    })
                },
                _ => None,
            },
            Some(ExtractionFunctionType::Strlen) => {
                Some(ExtractionFunctionView::Strlen { type_: ExtractionFunctionType::Strlen })
            },
            Some(ExtractionFunctionType::TimeFormat) => match (
                opt_text_at(doc, Field::Format),
                opt_text_at(doc, Field::TimeZone),
                opt_text_at(doc, Field::Locale),
                opt_literal_at::<Granularity>(doc, Field::Granularity),
                opt_flag_at(doc, Field::AsMillis),
            ) {
                (
                    Some(format),
                    Some(time_zone),
                    Some(locale),
                    Some(granularity),
                    Some(as_millis),
                ) => {
                    Some(ExtractionFunctionView::TimeFormat {
                        type_: ExtractionFunctionType::TimeFormat,
                        format,
                        time_zone,
                        locale,
                        granularity,
                        as_millis,
                    })
                },
                _ => None,
            },
            Some(ExtractionFunctionType::TimeParsing) => match (
                text_at(doc, Field::TimeFormat),
                text_at(doc, Field::ResultFormat),
                opt_flag_at(doc, Field::Joda),
            ) {
                (Some(time_format), Some(result_format), Some(joda)) => {
                    Some(ExtractionFunctionView::TimeParsing {
                        type_: ExtractionFunctionType::TimeParsing,
                        time_format,
                        result_format,
                        joda,
                    })
                },
                _ => None,
            },
            Some(ExtractionFunctionType::JavaScript) => match (
                text_at(doc, Field::Function),
                opt_flag_at(doc, Field::Injective),
            ) {
                (Some(function), Some(injective)) => {
                    Some(ExtractionFunctionView::JavaScript {
                        type_: ExtractionFunctionType::JavaScript,
                        function,
                        injective,
                    })
                },
                _ => None,
            },
            Some(ExtractionFunctionType::Cascade) => match ExtractionFunctionView::all_at(doc, Field::ExtractionFns) {
                Some(extraction_fns) => Some(ExtractionFunctionView::Cascade {
                    type_: ExtractionFunctionType::Cascade,
                    extraction_fns,
                }),
                None => None,
            },
            Some(ExtractionFunctionType::StringFormat) => match (
                text_at(doc, Field::Format),
                opt_text_at(doc, Field::NullHandling),
            ) {
                (Some(format), Some(null_handling)) => {
                    Some(ExtractionFunctionView::StringFormat {
                        type_: ExtractionFunctionType::StringFormat,
                        format,
                        null_handling,
                    })
                },
                _ => None,
            },
            Some(ExtractionFunctionType::Upper) => match opt_text_at(doc, Field::Locale) {
                Some(locale) => {
                    Some(
                        ExtractionFunctionView::Upper {
                            type_: ExtractionFunctionType::Upper,
                            locale,
                        },
                    )
                },
                None => None,
            },
            Some(ExtractionFunctionType::Lower) => match opt_text_at(doc, Field::Locale) {
                Some(locale) => {
                    Some(
                        ExtractionFunctionView::Lower {
                            type_: ExtractionFunctionType::Lower,
                            locale,
                        },
                    )
                },
                None => None,
            },
            Some(ExtractionFunctionType::Bucket) => match (
                unsigned_at(doc, Field::Size),
                unsigned_at(doc, Field::Offset),
            ) {
                (Some(size), Some(offset)) => {
                    Some(ExtractionFunctionView::Bucket {
                        type_: ExtractionFunctionType::Bucket,
                        size,
                        offset,
                    })
                },
                _ => None,
            },
            None => None,
        }
    }

    /// The extraction function that a document must hold under `field`.
    pub open spec fn at(doc: JsonValue, field: Field) -> Option<ExtractionFunctionView>
        decreases doc, 0nat,
    {
        match get(doc, field) {
            Some(found) => ExtractionFunctionView::decode(found),
            None => None,
        }
    }

    /// The extraction function that a document may hold under `field`: the
    /// outer `None` says that the member is there and stands for none.
    pub open spec fn opt_at(
        doc: JsonValue,
        field: Field,
    ) -> Option<Option<ExtractionFunctionView>> {
        match get(doc, field) {
            Some(found) => match ExtractionFunctionView::decode(found) {
                Some(present) => Some(Some(present)),
                None => None,
            },
            None => Some(None),
        }
    }

    /// The list of extraction functions that a document stands for, if it is a
    /// JSON array whose every element stands for one.
    pub open spec fn decode_all(doc: JsonValue) -> Option<Seq<ExtractionFunctionView>>
        decreases doc, 1nat,
    {
        match doc {
            JsonValue::Array(items) => if forall|i: int|
                0 <= i < items.len() ==> ExtractionFunctionView::decode(#[trigger] items[i]) is Some {
                Some(
                    Seq::new(
                        items.len(),
                        |i: int|
                            if 0 <= i < items.len() {
                                ExtractionFunctionView::decode(items[i]).unwrap()
                            } else {
                                arbitrary()
                            },
                    ),
                )
            } else {
                None
            },
            _ => None,
        }
    }

    /// The list of extraction functions that a document must hold under
    /// `field`.
    pub open spec fn all_at(doc: JsonValue, field: Field) -> Option<Seq<ExtractionFunctionView>>
        decreases doc, 0nat,
    {
        match get(doc, field) {
            Some(found) => ExtractionFunctionView::decode_all(found),
            None => None,
        }
    }

    /// An extraction function whose discriminator is not the one that its shape
    /// is meant to carry fails the type check, and so is not valid, whatever
    /// else it holds.
    pub proof fn lemma_mistagged(self)
        requires
            self.carried_type() != self.expected_type(),
        ensures
            !self.type_consistent(),
            !self.valid(),
    {
    }

    /// Whatever document it is read from, a decoded extraction function is
    /// valid: decoding lets no mistagged value through.
    pub proof fn lemma_decoded_valid(doc: JsonValue)
        ensures
            ExtractionFunctionView::decode(doc) matches Some(x) ==> x.valid(),
        decreases doc, 1nat,
    {
        reveal(ExtractionFunctionView::decode);
        if get(doc, Field::Query) is Some {
            SearchQueryView::lemma_decoded_valid(get(doc, Field::Query).unwrap());
        }
        if get(doc, Field::ExtractionFns) is Some {
            ExtractionFunctionView::lemma_decoded_all_valid(
                get(doc, Field::ExtractionFns).unwrap(),
            );
        }
    }

    /// Whatever document it is read from, every one of a decoded list of
    /// extraction functions is valid.
    pub proof fn lemma_decoded_all_valid(doc: JsonValue)
        ensures
            ExtractionFunctionView::decode_all(doc) matches Some(list) ==> ExtractionFunctionView::all_valid(
                list,
            ),
        decreases doc, 1nat,
    {
        reveal(ExtractionFunctionView::decode);
        if let JsonValue::Array(items) = doc {
            assert forall|i: int| 0 <= i < items.len() implies (
                ExtractionFunctionView::decode(#[trigger] items[i]) matches Some(x) ==> x.valid()
            ) by {
                ExtractionFunctionView::lemma_decoded_valid(items[i]);
            }
        }
    }

    /// Decoding the document of a valid extraction function gives the
    /// extraction function back.
    pub proof fn lemma_round_trip(self)
        requires
            self.valid(),
        ensures
            ExtractionFunctionView::decode(self.encode()) == Some(self),
            !(self.encode() is Null),
        decreases self, 0nat,
    {
        reveal(ExtractionFunctionView::encode);
        reveal(ExtractionFunctionView::decode);
        match self {
            ExtractionFunctionView::SearchQuery { query, .. } => {
                query.lemma_round_trip();
            },
            ExtractionFunctionView::Cascade { extraction_fns, .. } => {
                ExtractionFunctionView::lemma_round_trip_all(extraction_fns);
            },
            _ => {},
        }
    }

    /// Decoding the document of a list of valid extraction functions gives the
    /// list back.
    pub proof fn lemma_round_trip_all(list: Seq<ExtractionFunctionView>)
        requires
            ExtractionFunctionView::all_valid(list),
        ensures
            ExtractionFunctionView::decode_all(ExtractionFunctionView::encode_all(list))
                == Some(list),
        decreases list, 0nat,
    {
        reveal(ExtractionFunctionView::encode);
        reveal(ExtractionFunctionView::decode);
        let items = ExtractionFunctionView::encode_all(list)->Array_0;
        assert forall|i: int| 0 <= i < items.len() implies
            ExtractionFunctionView::decode(#[trigger] items[i]) == Some(list[i]) by {
            list[i].lemma_round_trip();
        }
        assert(ExtractionFunctionView::decode_all(ExtractionFunctionView::encode_all(list)).unwrap() =~= list);
    }
}

impl ExtractionFunction {
    /// Whether the discriminator fits the shape.
    pub fn validate_type(&self) -> (r: bool)
        ensures
            r == self@.type_consistent(),
    {
        match self {
            ExtractionFunction::Regex { type_, .. } => *type_ == ExtractionFunctionType::Regex,
            ExtractionFunction::Partial { type_, .. } => *type_ == ExtractionFunctionType::Partial,
            ExtractionFunction::SearchQuery { type_, .. } => {
                *type_ == ExtractionFunctionType::SearchQuery
            },
            ExtractionFunction::Substring { type_, .. } => {
                *type_ == ExtractionFunctionType::Substring
            },
            ExtractionFunction::Strlen { type_, .. } => *type_ == ExtractionFunctionType::Strlen,
            ExtractionFunction::TimeFormat { type_, .. } => {
                *type_ == ExtractionFunctionType::TimeFormat
            },
            ExtractionFunction::TimeParsing { type_, .. } => {
                *type_ == ExtractionFunctionType::TimeParsing
            },
            ExtractionFunction::JavaScript { type_, .. } => {
                *type_ == ExtractionFunctionType::JavaScript
            },
            ExtractionFunction::Cascade { type_, .. } => *type_ == ExtractionFunctionType::Cascade,
            ExtractionFunction::StringFormat {
                type_,
                ..
            } => *type_ == ExtractionFunctionType::StringFormat,
            ExtractionFunction::Upper { type_, .. } => *type_ == ExtractionFunctionType::Upper,
            ExtractionFunction::Lower { type_, .. } => *type_ == ExtractionFunctionType::Lower,
            ExtractionFunction::Bucket { type_, .. } => *type_ == ExtractionFunctionType::Bucket,
        }
    }

    /// Whether every component that this extraction function owns is valid.
    pub fn validate_subcomponents(&self) -> (r: bool)
        ensures
            r == self@.subcomponents_valid(),
        decreases self, 0nat,
    {
        match self {
            ExtractionFunction::SearchQuery { query, .. } => query.validate(),
            ExtractionFunction::Cascade {
                extraction_fns,
                ..
            } => ExtractionFunction::validate_all(extraction_fns),
            _ => true,
        }
    }

    /// Whether this extraction function is valid.
    pub fn validate(&self) -> (r: bool)
        ensures
            r == self@.valid(),
        decreases self, 1nat,
    {
        self.validate_type() && self.validate_subcomponents()
    }

    /// Whether an extraction function that may be absent is valid.
    pub fn validate_opt(x: &Option<ExtractionFunction>) -> (r: bool)
        ensures
            r == ExtractionFunctionView::opt_valid(x.deep_view()),
    {
        match x {
            Some(present) => present.validate(),
            None => true,
        }
    }

    /// Whether every one of a list of extraction functions is valid. Stops at
    /// the first that is not.
    pub fn validate_all(list: &Vec<ExtractionFunction>) -> (r: bool)
        ensures
            r == ExtractionFunctionView::all_valid(ExtractionFunction::models(list)),
        decreases list, 0nat,
    {
        let mut i: usize = 0;
        while i < list.len()
            invariant
                i <= list.len(),
                forall|k: int| 0 <= k < i ==> (#[trigger] list@[k]).model().valid(),
            decreases list.len() - i,
        {
            if !list[i].validate() {
                assert(!ExtractionFunction::models(list)[i as int].valid());
                return false;
            }
            i = i + 1;
        }
        true
    }

    /// Writes this extraction function as the document that stands for it on
    /// the wire.
    pub fn encode(&self) -> (v: serde_json::Value)
        ensures
            value_model(v) == self@.encode(),
        decreases self, 0nat,
    {
        proof {
            reveal(ExtractionFunctionView::encode);
        }
        let mut members = new_object();
        match self {
            ExtractionFunction::Regex {
                type_,
                expr,
                index,
                replace_missing_value,
                replace_missing_value_with,
            } => {
                put_literal(&mut members, Field::Type, type_);
                put_text(&mut members, Field::Expr, expr.as_str());
                put_unsigned(&mut members, Field::Index, *index);
                put_flag(&mut members, Field::ReplaceMissingValue, *replace_missing_value);
                put_opt_text(
                    &mut members,
                    Field::ReplaceMissingValueWith,
                    replace_missing_value_with,
                );
            },
            ExtractionFunction::Partial { type_, expr } => {
                put_literal(&mut members, Field::Type, type_);
                put_text(&mut members, Field::Expr, expr.as_str());
            },
            ExtractionFunction::SearchQuery { type_, query } => {
                put_literal(&mut members, Field::Type, type_);
                put_value(&mut members, Field::Query, query.encode());
            },
            ExtractionFunction::Substring { type_, index, length } => {
                put_literal(&mut members, Field::Type, type_);
                put_unsigned(&mut members, Field::Index, *index);
                put_opt_unsigned(&mut members, Field::Length, *length);
            },
            ExtractionFunction::Strlen { type_ } => {
                put_literal(&mut members, Field::Type, type_);
            },
            ExtractionFunction::TimeFormat {
                type_,
                format,
                time_zone,
                locale,
                granularity,
                as_millis,
            } => {
                put_literal(&mut members, Field::Type, type_);
                put_opt_text(&mut members, Field::Format, format);
                put_opt_text(&mut members, Field::TimeZone, time_zone);
                put_opt_text(&mut members, Field::Locale, locale);
                put_opt_literal(&mut members, Field::Granularity, granularity);
                put_opt_flag(&mut members, Field::AsMillis, *as_millis);
            },
            ExtractionFunction::TimeParsing { type_, time_format, result_format, joda } => {
                put_literal(&mut members, Field::Type, type_);
                put_text(&mut members, Field::TimeFormat, time_format.as_str());
                put_text(&mut members, Field::ResultFormat, result_format.as_str());
                put_opt_flag(&mut members, Field::Joda, *joda);
            },
            ExtractionFunction::JavaScript { type_, function, injective } => {
                put_literal(&mut members, Field::Type, type_);
                put_text(&mut members, Field::Function, function.as_str());
                put_opt_flag(&mut members, Field::Injective, *injective);
            },
            ExtractionFunction::Cascade { type_, extraction_fns } => {
                put_literal(&mut members, Field::Type, type_);
                put_value(
                    &mut members,
                    Field::ExtractionFns,
                    ExtractionFunction::encode_all(extraction_fns),
                );
            },
            ExtractionFunction::StringFormat { type_, format, null_handling } => {
                put_literal(&mut members, Field::Type, type_);
                put_text(&mut members, Field::Format, format.as_str());
                put_opt_text(&mut members, Field::NullHandling, null_handling);
            },
            ExtractionFunction::Upper { type_, locale } => {
                put_literal(&mut members, Field::Type, type_);
                put_opt_text(&mut members, Field::Locale, locale);
            },
            ExtractionFunction::Lower { type_, locale } => {
                put_literal(&mut members, Field::Type, type_);
                put_opt_text(&mut members, Field::Locale, locale);
            },
            ExtractionFunction::Bucket { type_, size, offset } => {
                put_literal(&mut members, Field::Type, type_);
                put_unsigned(&mut members, Field::Size, *size);
                put_unsigned(&mut members, Field::Offset, *offset);
            },
        }
        object_value(members)
    }

    /// Stores an extraction function under `field`, unless it is absent.
    pub fn put_opt(members: &mut Object, field: Field, x: &Option<ExtractionFunction>)
        ensures
            map_model(*final(members))
                == map_model(*old(members)).with_opt(
                    field,
                    ExtractionFunctionView::encode_opt(x.deep_view()),
                ),
    {
        match x {
            Some(present) => put_opt_value(members, field, Some(present.encode())),
            None => put_opt_value(members, field, None),
        }
    }

    /// Writes a list of extraction functions as a JSON array.
    pub fn encode_all(list: &Vec<ExtractionFunction>) -> (v: serde_json::Value)
        ensures
            value_model(v) == ExtractionFunctionView::encode_all(ExtractionFunction::models(list)),
        decreases list, 0nat,
    {
        proof {
            reveal(ExtractionFunctionView::encode);
        }
        let mut items: Vec<serde_json::Value> = Vec::new();
        let mut i: usize = 0;
        while i < list.len()
            invariant
                i <= list.len(),
                items@.len() == i,
                forall|k: int|
                    0 <= k < i ==> value_model(#[trigger] items@[k]) == list@[k].model().encode(),
            decreases list.len() - i,
        {
            items.push(list[i].encode());
            i = i + 1;
        }
        proof {
            assert(value_models(items@) =~= ExtractionFunctionView::encode_all(ExtractionFunction::models(list))->Array_0);
        }
        array_value(items)
    }

    /// Reads the extraction function that a document stands for. Gives `None`
    /// where the document stands for none.
    pub fn decode(v: &serde_json::Value) -> (r: Option<ExtractionFunction>)
        ensures
            r.deep_view() == ExtractionFunctionView::decode(value_model(*v)),
        decreases value_model(*v), 1nat,
    {
        proof {
            reveal(ExtractionFunctionView::decode);
        }
        match read_literal::<ExtractionFunctionType>(v, Field::Type)? {
            ExtractionFunctionType::Regex => Some(ExtractionFunction::Regex {
                type_: ExtractionFunctionType::Regex,
                expr: read_text(v, Field::Expr)?,
                index: read_unsigned(v, Field::Index)?,
                replace_missing_value: read_flag(v, Field::ReplaceMissingValue)?,
                replace_missing_value_with: read_opt_text(v, Field::ReplaceMissingValueWith)?,
            }),
            ExtractionFunctionType::Partial => Some(ExtractionFunction::Partial {
                type_: ExtractionFunctionType::Partial,
                expr: read_text(v, Field::Expr)?,
            }),
            ExtractionFunctionType::SearchQuery => Some(ExtractionFunction::SearchQuery {
                type_: ExtractionFunctionType::SearchQuery,
                query: SearchQuery::read(v, Field::Query)?,
            }),
            ExtractionFunctionType::Substring => Some(ExtractionFunction::Substring {
                type_: ExtractionFunctionType::Substring,
                index: read_unsigned(v, Field::Index)?,
                length: read_opt_unsigned(v, Field::Length)?,
            }),
            ExtractionFunctionType::Strlen => {
                Some(ExtractionFunction::Strlen { type_: ExtractionFunctionType::Strlen })
            },
            ExtractionFunctionType::TimeFormat => Some(ExtractionFunction::TimeFormat {
                type_: ExtractionFunctionType::TimeFormat,
                format: read_opt_text(v, Field::Format)?,
                time_zone: read_opt_text(v, Field::TimeZone)?,
                locale: read_opt_text(v, Field::Locale)?,
                granularity: read_opt_literal::<Granularity>(v, Field::Granularity)?,
                as_millis: read_opt_flag(v, Field::AsMillis)?,
            }),
            ExtractionFunctionType::TimeParsing => Some(ExtractionFunction::TimeParsing {
                type_: ExtractionFunctionType::TimeParsing,
                time_format: read_text(v, Field::TimeFormat)?,
                result_format: read_text(v, Field::ResultFormat)?,
                joda: read_opt_flag(v, Field::Joda)?,
            }),
            ExtractionFunctionType::JavaScript => Some(ExtractionFunction::JavaScript {
                type_: ExtractionFunctionType::JavaScript,
                function: read_text(v, Field::Function)?,
                injective: read_opt_flag(v, Field::Injective)?,
            }),
            ExtractionFunctionType::Cascade => Some(ExtractionFunction::Cascade {
                type_: ExtractionFunctionType::Cascade,
                extraction_fns: ExtractionFunction::read_all(v, Field::ExtractionFns)?,
            }),
            ExtractionFunctionType::StringFormat => Some(ExtractionFunction::StringFormat {
                type_: ExtractionFunctionType::StringFormat,
                format: read_text(v, Field::Format)?,
                null_handling: read_opt_text(v, Field::NullHandling)?,
            }),
            ExtractionFunctionType::Upper => Some(ExtractionFunction::Upper {
                type_: ExtractionFunctionType::Upper,
                locale: read_opt_text(v, Field::Locale)?,
            }),
            ExtractionFunctionType::Lower => Some(ExtractionFunction::Lower {
                type_: ExtractionFunctionType::Lower,
                locale: read_opt_text(v, Field::Locale)?,
            }),
            ExtractionFunctionType::Bucket => Some(ExtractionFunction::Bucket {
                type_: ExtractionFunctionType::Bucket,
                size: read_unsigned(v, Field::Size)?,
                offset: read_unsigned(v, Field::Offset)?,
            }),
        }
    }

    /// Reads an extraction function that must stand under `field`.
    pub fn read(v: &serde_json::Value, field: Field) -> (r: Option<ExtractionFunction>)
        ensures
            r.deep_view() == ExtractionFunctionView::at(value_model(*v), field),
        decreases value_model(*v), 0nat,
    {
        proof {
            reveal(ExtractionFunctionView::decode);
        }
        let found = member_of(v, field)?;
        ExtractionFunction::decode(found)
    }

    /// Reads an extraction function that may stand under `field`. The outer
    /// `None` says that the member is there and stands for none.
    pub fn read_opt(v: &serde_json::Value, field: Field) -> (r: Option<Option<ExtractionFunction>>)
        ensures
            r.deep_view() == ExtractionFunctionView::opt_at(value_model(*v), field),
    {
        match member_of(v, field) {
            Some(found) => Some(Some(ExtractionFunction::decode(found)?)),
            None => Some(None),
        }
    }

    /// Reads the list of extraction functions that a JSON array stands for.
    pub fn decode_all(v: &serde_json::Value) -> (r: Option<Vec<ExtractionFunction>>)
        ensures
            r matches Some(list) ==> ExtractionFunctionView::decode_all(value_model(*v)) == Some(
                ExtractionFunction::models(&list),
            ),
            r is None ==> ExtractionFunctionView::decode_all(value_model(*v)) is None,
        decreases value_model(*v), 1nat,
    {
        proof {
            reveal(ExtractionFunctionView::decode);
        }
        let items = v.as_array()?;
        let mut list: Vec<ExtractionFunction> = Vec::new();
        let mut i: usize = 0;
        while i < items.len()
            invariant
                i <= items.len(),
                list@.len() == i,
                value_model(*v) == JsonValue::Array(value_models(items@)),
                forall|k: int|
                    0 <= k < i ==> ExtractionFunctionView::decode(value_model(#[trigger] items@[k])) == Some(
                        list@[k].model(),
                    ),
            decreases items.len() - i,
        {
            match ExtractionFunction::decode(&items[i]) {
                Some(item) => {
                    list.push(item);
                },
                None => {
                    reveal(ExtractionFunctionView::decode);
                    assert(ExtractionFunctionView::decode(value_models(items@)[i as int]) is None);
                    return None;
                },
            }
            i = i + 1;
        }
        proof {
            assert(ExtractionFunctionView::decode_all(value_model(*v)).unwrap() =~= ExtractionFunction::models(&list));
        }
        Some(list)
    }

    /// Reads a list of extraction functions that must stand under `field`.
    pub fn read_all(v: &serde_json::Value, field: Field) -> (r: Option<Vec<ExtractionFunction>>)
        ensures
            r matches Some(list) ==> ExtractionFunctionView::all_at(value_model(*v), field) == Some(
                ExtractionFunction::models(&list),
            ),
            r is None ==> ExtractionFunctionView::all_at(value_model(*v), field) is None,
        decreases value_model(*v), 0nat,
    {
        proof {
            reveal(ExtractionFunctionView::decode);
        }
        let found = member_of(v, field)?;
        ExtractionFunction::decode_all(found)
    }

    /// A copy of this extraction function.
    pub fn duplicate(&self) -> (r: ExtractionFunction)
        ensures
            r@ == self@,
        decreases self, 0nat,
    {
        match self {
            ExtractionFunction::Regex {
                type_,
                expr,
                index,
                replace_missing_value,
                replace_missing_value_with,
            } => ExtractionFunction::Regex {
                type_: *type_,
                expr: expr.clone(),
                index: *index,
                replace_missing_value: *replace_missing_value,
                replace_missing_value_with: copy_opt_text(replace_missing_value_with),
            },
            ExtractionFunction::Partial { type_, expr } => ExtractionFunction::Partial {
                type_: *type_,
                expr: expr.clone(),
            },
            ExtractionFunction::SearchQuery { type_, query } => ExtractionFunction::SearchQuery {
                type_: *type_,
                query: query.duplicate(),
            },
            ExtractionFunction::Substring {
                type_,
                index,
                length,
            } => ExtractionFunction::Substring {
                type_: *type_,
                index: *index,
                length: *length,
            },
            ExtractionFunction::Strlen { type_ } => ExtractionFunction::Strlen { type_: *type_ },
            ExtractionFunction::TimeFormat {
                type_,
                format,
                time_zone,
                locale,
                granularity,
                as_millis,
            } => ExtractionFunction::TimeFormat {
                type_: *type_,
                format: copy_opt_text(format),
                time_zone: copy_opt_text(time_zone),
                locale: copy_opt_text(locale),
                granularity: *granularity,
                as_millis: *as_millis,
            },
            ExtractionFunction::TimeParsing {
                type_,
                time_format,
                result_format,
                joda,
            } => ExtractionFunction::TimeParsing {
                type_: *type_,
                time_format: time_format.clone(),
                result_format: result_format.clone(),
                joda: *joda,
            },
            ExtractionFunction::JavaScript {
                type_,
                function,
                injective,
            } => ExtractionFunction::JavaScript {
                type_: *type_,
                function: function.clone(),
                injective: *injective,
            },
            ExtractionFunction::Cascade { type_, extraction_fns } => ExtractionFunction::Cascade {
                type_: *type_,
                extraction_fns: ExtractionFunction::duplicate_all(extraction_fns),
            },
            ExtractionFunction::StringFormat {
                type_,
                format,
                null_handling,
            } => ExtractionFunction::StringFormat {
                type_: *type_,
                format: format.clone(),
                null_handling: copy_opt_text(null_handling),
            },
            ExtractionFunction::Upper { type_, locale } => ExtractionFunction::Upper {
                type_: *type_,
                locale: copy_opt_text(locale),
            },
            ExtractionFunction::Lower { type_, locale } => ExtractionFunction::Lower {
                type_: *type_,
                locale: copy_opt_text(locale),
            },
            ExtractionFunction::Bucket { type_, size, offset } => ExtractionFunction::Bucket {
                type_: *type_,
                size: *size,
                offset: *offset,
            },
        }
    }

    /// A copy of an extraction function that may be absent.
    pub fn duplicate_opt(x: &Option<ExtractionFunction>) -> (r: Option<ExtractionFunction>)
        ensures
            r.deep_view() == x.deep_view(),
    {
        match x {
            Some(present) => Some(present.duplicate()),
            None => None,
        }
    }

    /// A copy of a list of extraction functions.
    pub fn duplicate_all(list: &Vec<ExtractionFunction>) -> (r: Vec<ExtractionFunction>)
        ensures
            ExtractionFunction::models(&r) == ExtractionFunction::models(list),
        decreases list, 0nat,
    {
        let mut copy: Vec<ExtractionFunction> = Vec::new();
        let mut i: usize = 0;
        while i < list.len()
            invariant
                i <= list.len(),
                copy@.len() == i,
                forall|k: int|
                    0 <= k < i ==> (#[trigger] copy@[k]).model() == list@[k].model(),
            decreases list.len() - i,
        {
            copy.push(list[i].duplicate());
            i = i + 1;
        }
        proof {
            assert(ExtractionFunction::models(&copy) =~= ExtractionFunction::models(list));
        }
        copy
    }
}

impl Clone for ExtractionFunction {
    fn clone(&self) -> (r: Self)
        ensures
            r@ == self@,
    {
        self.duplicate()
    }
}

} // verus!
