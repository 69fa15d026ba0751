//! The names of the members of the JSON objects on the wire, and typed access
//! to those members.

use vstd::prelude::*;
use crate::json::{
    array_value, flag_value, map_model, member, no_members, set_member, text_value,
    unsigned_value, value_model, value_models, JsonNumber, JsonValue, Members, Object,
};
use crate::literal::{
    decode_literal, decode_literals, encode_literal, encode_literals, literal_value, outline,
    value_literal, Literal,
};

verus! {

/// The name of a member of a JSON object on the wire.
#[derive(Debug, Clone, Copy, PartialEq, Eq, Structural)]
pub enum Field {
    Type,
    QueryType,
    Name,
    DataSources,
    ColumnNames,
    Rows,
    Query,
    Left,
    Right,
    RightPrefix,
    Condition,
    JoinType,
    Base,
    VirtualColumn,
    UnnestFilter,
    Expression,
    OutputType,
    Metric,
    Collation,
    PreviousStop,
    Dimension,
    OutputName,
    ExtractionFn,
    Delegate,
    Values,
    IsWhitelist,
    Pattern,
    Prefix,
    Expr,
    Index,
    ReplaceMissingValue,
    ReplaceMissingValueWith,
    Length,
    Format,
    TimeZone,
    Locale,
    Granularity,
    AsMillis,
    TimeFormat,
    ResultFormat,
    Joda,
    Function,
    Injective,
    ExtractionFns,
    NullHandling,
    Size,
    Offset,
    Value,
    Dimensions,
    Fields,
    Field,
    ExtractionFunction,
    Escape,
    Lower,
    Upper,
    LowerStrict,
    UpperStrict,
    Intervals,
    FieldName,
    FieldNames,
    FnAggregate,
    FnCombine,
    FnReset,
    Filter,
    Aggregator,
    Groupings,
    Fn,
    Aggregation,
    HavingSpecs,
    Limit,
    Columns,
    Direction,
    DimensionOrder,
    SegmentGranularity,
    QueryGranularity,
    Rollup,
    CaseSensitive,
    DataSource,
    Descending,
    Aggregations,
    PostAggregations,
    Context,
    Threshold,
    LimitSpec,
    Having,
    SubtotalsSpec,
    Bound,
    ToInclude,
    Merge,
    AnalysisTypes,
    LenientAggregatorMerge,
    Order,
    Legacy,
    SearchDimensions,
    Sort,
    Error,
    ErrorMessage,
    ErrorClass,
    Host,
    Timeout,
    Priority,
    Lane,
    QueryId,
    BrokerService,
    UseCache,
    PopulateCache,
    UseResultLevelCache,
    PopulateResultLevelCache,
    BySegment,
    Finalize,
    MaxScatterGatherBytes,
    MaxQueuedBytes,
    SerializeDateTimeAsLong,
    SerializeDateTimeAsLongInner,
    EnableParallelMerge,
    ParallelMergeParallelism,
    ParallelMergeInitialYieldRows,
    ParallelMergeSmallBatchRows,
    UseFilterCnf,
    SecondaryPartitionPruning,
    EnableJoinLeftTableScanDirect,
    Debug,
    MinTopNThreshold,
    SkipEmptyBuckets,
    GroupByStrategy,
    GroupByIsSingleThread,
    BufferGrouperInitialBuckets,
    BufferGrouperMaxLoadFactor,
    ForceHashAggregation,
    IntermediateCombineDegree,
    NumParallelCombineThreads,
    ApplyLimitPushDownToSegment,
    SortByDimsFirst,
    ForceLimitPushDown,
    MaxIntermediateRows,
    MaxResults,
    UseOfHeap,
    Vectorize,
    VectorSize,
    VectorizeVirtualColumns,
}

impl Field {
    /// The member name as it is spelled on the wire.
    pub open spec fn key(self) -> Seq<char> {
        match self {
            Field::Type => "type"@,
            Field::QueryType => "queryType"@,
            Field::Name => "name"@,
            Field::DataSources => "dataSources"@,
            Field::ColumnNames => "columnNames"@,
            Field::Rows => "rows"@,
            Field::Query => "query"@,
            Field::Left => "left"@,
            Field::Right => "right"@,
            Field::RightPrefix => "rightPrefix"@,
            Field::Condition => "condition"@,
            Field::JoinType => "joinType"@,
            Field::Base => "base"@,
            Field::VirtualColumn => "virtualColumn"@,
            Field::UnnestFilter => "unnestFilter"@,
            Field::Expression => "expression"@,
            Field::OutputType => "outputType"@,
            Field::Metric => "metric"@,
            Field::Collation => "ordering"@,
            Field::PreviousStop => "previousStop"@,
            Field::Dimension => "dimension"@,
            Field::OutputName => "outputName"@,
            Field::ExtractionFn => "extractionFn"@,
            Field::Delegate => "delegate"@,
            Field::Values => "values"@,
            Field::IsWhitelist => "isWhitelist"@,
            Field::Pattern => "pattern"@,
            Field::Prefix => "prefix"@,
            Field::Expr => "expr"@,
            Field::Index => "index"@,
            Field::ReplaceMissingValue => "replaceMissingValue"@,
            Field::ReplaceMissingValueWith => "replaceMissingValueWith"@,
            Field::Length => "length"@,
            Field::Format => "format"@,
            Field::TimeZone => "timeZone"@,
            Field::Locale => "locale"@,
            Field::Granularity => "granularity"@,
            Field::AsMillis => "asMillis"@,
            Field::TimeFormat => "timeFormat"@,
            Field::ResultFormat => "resultFormat"@,
            Field::Joda => "joda"@,
            Field::Function => "function"@,
            Field::Injective => "injective"@,
            Field::ExtractionFns => "extractionFns"@,
            Field::NullHandling => "nullHandling"@,
            Field::Size => "size"@,
            Field::Offset => "offset"@,
            Field::Value => "value"@,
            Field::Dimensions => "dimensions"@,
            Field::Fields => "fields"@,
            Field::Field => "field"@,
            Field::ExtractionFunction => "extractionFunction"@,
            Field::Escape => "escape"@,
            Field::Lower => "lower"@,
            Field::Upper => "upper"@,
            Field::LowerStrict => "lowerStrict"@,
            Field::UpperStrict => "upperStrict"@,
            Field::Intervals => "intervals"@,
            Field::FieldName => "fieldName"@,
            Field::FieldNames => "fieldNames"@,
            Field::FnAggregate => "fnAggregate"@,
            Field::FnCombine => "fnCombine"@,
            Field::FnReset => "fnReset"@,
            Field::Filter => "filter"@,
            Field::Aggregator => "aggregator"@,
            Field::Groupings => "groupings"@,
            Field::Fn => "fn"@,
            Field::Aggregation => "aggregation"@,
            Field::HavingSpecs => "havingSpecs"@,
            Field::Limit => "limit"@,
            Field::Columns => "columns"@,
            Field::Direction => "direction"@,
            Field::DimensionOrder => "dimensionOrder"@,
            Field::SegmentGranularity => "segmentGranularity"@,
            Field::QueryGranularity => "queryGranularity"@,
            Field::Rollup => "rollup"@,
            Field::CaseSensitive => "caseSensitive"@,
            Field::DataSource => "dataSource"@,
            Field::Descending => "descending"@,
            Field::Aggregations => "aggregations"@,
            Field::PostAggregations => "postAggregations"@,
            Field::Context => "context"@,
            Field::Threshold => "threshold"@,
            Field::LimitSpec => "limitSpec"@,
            Field::Having => "having"@,
            Field::SubtotalsSpec => "subtotalsSpec"@,
            Field::Bound => "bound"@,
            Field::ToInclude => "toInclude"@,
            Field::Merge => "merge"@,
            Field::AnalysisTypes => "analysisTypes"@,
            Field::LenientAggregatorMerge => "lenientAggregatorMerge"@,
            Field::Order => "order"@,
            Field::Legacy => "legacy"@,
            Field::SearchDimensions => "searchDimensions"@,
            Field::Sort => "sort"@,
            Field::Error => "error"@,
            Field::ErrorMessage => "errorMessage"@,
            Field::ErrorClass => "errorClass"@,
            Field::Host => "host"@,
            Field::Timeout => "timeout"@,
            Field::Priority => "priority"@,
            Field::Lane => "lane"@,
            Field::QueryId => "queryId"@,
            Field::BrokerService => "brokerService"@,
            Field::UseCache => "useCache"@,
            Field::PopulateCache => "populateCache"@,
            Field::UseResultLevelCache => "useResultLevelCache"@,
            Field::PopulateResultLevelCache => "populateResultLevelCache"@,
            Field::BySegment => "bySegment"@,
            Field::Finalize => "finalize"@,
            Field::MaxScatterGatherBytes => "maxScatterGatherBytes"@,
            Field::MaxQueuedBytes => "maxQueuedBytes"@,
            Field::SerializeDateTimeAsLong => "serializeDateTimeAsLong"@,
            Field::SerializeDateTimeAsLongInner => "serializeDateTimeAsLongInner"@,
            Field::EnableParallelMerge => "enableParallelMerge"@,
            Field::ParallelMergeParallelism => "parallelMergeParallelism"@,
            Field::ParallelMergeInitialYieldRows => "parallelMergeInitialYieldRows"@,
            Field::ParallelMergeSmallBatchRows => "parallelMergeSmallBatchRows"@,
            Field::UseFilterCnf => "useFilterCNF"@,
            Field::SecondaryPartitionPruning => "secondaryPartitionPruning"@,
            Field::EnableJoinLeftTableScanDirect => "enableJoinLeftTableScanDirect"@,
            Field::Debug => "debug"@,
            Field::MinTopNThreshold => "minTopNThreshold"@,
            Field::SkipEmptyBuckets => "skipEmptyBuckets"@,
            Field::GroupByStrategy => "groupByStrategy"@,
            Field::GroupByIsSingleThread => "groupByIsSingleThread"@,
            Field::BufferGrouperInitialBuckets => "bufferGrouperInitialBuckets"@,
            Field::BufferGrouperMaxLoadFactor => "bufferGrouperMaxLoadFactor"@,
            Field::ForceHashAggregation => "forceHashAggregation"@,
            Field::IntermediateCombineDegree => "intermediateCombineDegree"@,
            Field::NumParallelCombineThreads => "numParallelCombineThreads"@,
            Field::ApplyLimitPushDownToSegment => "applyLimitPushDownToSegment"@,
            Field::SortByDimsFirst => "sortByDimsFirst"@,
            Field::ForceLimitPushDown => "forceLimitPushDown"@,
            Field::MaxIntermediateRows => "maxIntermediateRows"@,
            Field::MaxResults => "maxResults"@,
            Field::UseOfHeap => "useOfHeap"@,
            Field::Vectorize => "vectorize"@,
            Field::VectorSize => "vectorSize"@,
            Field::VectorizeVirtualColumns => "vectorizeVirtualColumns"@,
        }
    }

    /// The member name as it is spelled on the wire.
    pub fn text(&self) -> (r: &'static str)
        ensures
            r@ == self.key(),
    {
        match self {
            Field::Type => "type",
            Field::QueryType => "queryType",
            Field::Name => "name",
            Field::DataSources => "dataSources",
            Field::ColumnNames => "columnNames",
            Field::Rows => "rows",
            Field::Query => "query",
            Field::Left => "left",
            Field::Right => "right",
            Field::RightPrefix => "rightPrefix",
            Field::Condition => "condition",
            Field::JoinType => "joinType",
            Field::Base => "base",
            Field::VirtualColumn => "virtualColumn",
            Field::UnnestFilter => "unnestFilter",
            Field::Expression => "expression",
            Field::OutputType => "outputType",
            Field::Metric => "metric",
            Field::Collation => "ordering",
            Field::PreviousStop => "previousStop",
            Field::Dimension => "dimension",
            Field::OutputName => "outputName",
            Field::ExtractionFn => "extractionFn",
            Field::Delegate => "delegate",
            Field::Values => "values",
            Field::IsWhitelist => "isWhitelist",
            Field::Pattern => "pattern",
            Field::Prefix => "prefix",
            Field::Expr => "expr",
            Field::Index => "index",
            Field::ReplaceMissingValue => "replaceMissingValue",
            Field::ReplaceMissingValueWith => "replaceMissingValueWith",
            Field::Length => "length",
            Field::Format => "format",
            Field::TimeZone => "timeZone",
            Field::Locale => "locale",
            Field::Granularity => "granularity",
            Field::AsMillis => "asMillis",
            Field::TimeFormat => "timeFormat",
            Field::ResultFormat => "resultFormat",
            Field::Joda => "joda",
            Field::Function => "function",
            Field::Injective => "injective",
            Field::ExtractionFns => "extractionFns",
            Field::NullHandling => "nullHandling",
            Field::Size => "size",
            Field::Offset => "offset",
            Field::Value => "value",
            Field::Dimensions => "dimensions",
            Field::Fields => "fields",
            Field::Field => "field",
            Field::ExtractionFunction => "extractionFunction",
            Field::Escape => "escape",
            Field::Lower => "lower",
            Field::Upper => "upper",
            Field::LowerStrict => "lowerStrict",
            Field::UpperStrict => "upperStrict",
            Field::Intervals => "intervals",
            Field::FieldName => "fieldName",
            Field::FieldNames => "fieldNames",
            Field::FnAggregate => "fnAggregate",
            Field::FnCombine => "fnCombine",
            Field::FnReset => "fnReset",
            Field::Filter => "filter",
            Field::Aggregator => "aggregator",
            Field::Groupings => "groupings",
            Field::Fn => "fn",
            Field::Aggregation => "aggregation",
            Field::HavingSpecs => "havingSpecs",
            Field::Limit => "limit",
            Field::Columns => "columns",
            Field::Direction => "direction",
            Field::DimensionOrder => "dimensionOrder",
            Field::SegmentGranularity => "segmentGranularity",
            Field::QueryGranularity => "queryGranularity",
            Field::Rollup => "rollup",
            Field::CaseSensitive => "caseSensitive",
            Field::DataSource => "dataSource",
            Field::Descending => "descending",
            Field::Aggregations => "aggregations",
            Field::PostAggregations => "postAggregations",
            Field::Context => "context",
            Field::Threshold => "threshold",
            Field::LimitSpec => "limitSpec",
            Field::Having => "having",
            Field::SubtotalsSpec => "subtotalsSpec",
            Field::Bound => "bound",
            Field::ToInclude => "toInclude",
            Field::Merge => "merge",
            Field::AnalysisTypes => "analysisTypes",
            Field::LenientAggregatorMerge => "lenientAggregatorMerge",
            Field::Order => "order",
            Field::Legacy => "legacy",
            Field::SearchDimensions => "searchDimensions",
            Field::Sort => "sort",
            Field::Error => "error",
            Field::ErrorMessage => "errorMessage",
            Field::ErrorClass => "errorClass",
            Field::Host => "host",
            Field::Timeout => "timeout",
            Field::Priority => "priority",
            Field::Lane => "lane",
            Field::QueryId => "queryId",
            Field::BrokerService => "brokerService",
            Field::UseCache => "useCache",
            Field::PopulateCache => "populateCache",
            Field::UseResultLevelCache => "useResultLevelCache",
            Field::PopulateResultLevelCache => "populateResultLevelCache",
            Field::BySegment => "bySegment",
            Field::Finalize => "finalize",
            Field::MaxScatterGatherBytes => "maxScatterGatherBytes",
            Field::MaxQueuedBytes => "maxQueuedBytes",
            Field::SerializeDateTimeAsLong => "serializeDateTimeAsLong",
            Field::SerializeDateTimeAsLongInner => "serializeDateTimeAsLongInner",
            Field::EnableParallelMerge => "enableParallelMerge",
            Field::ParallelMergeParallelism => "parallelMergeParallelism",
            Field::ParallelMergeInitialYieldRows => "parallelMergeInitialYieldRows",
            Field::ParallelMergeSmallBatchRows => "parallelMergeSmallBatchRows",
            Field::UseFilterCnf => "useFilterCNF",
            Field::SecondaryPartitionPruning => "secondaryPartitionPruning",
            Field::EnableJoinLeftTableScanDirect => "enableJoinLeftTableScanDirect",
            Field::Debug => "debug",
            Field::MinTopNThreshold => "minTopNThreshold",
            Field::SkipEmptyBuckets => "skipEmptyBuckets",
            Field::GroupByStrategy => "groupByStrategy",
            Field::GroupByIsSingleThread => "groupByIsSingleThread",
            Field::BufferGrouperInitialBuckets => "bufferGrouperInitialBuckets",
            Field::BufferGrouperMaxLoadFactor => "bufferGrouperMaxLoadFactor",
            Field::ForceHashAggregation => "forceHashAggregation",
            Field::IntermediateCombineDegree => "intermediateCombineDegree",
            Field::NumParallelCombineThreads => "numParallelCombineThreads",
            Field::ApplyLimitPushDownToSegment => "applyLimitPushDownToSegment",
            Field::SortByDimsFirst => "sortByDimsFirst",
            Field::ForceLimitPushDown => "forceLimitPushDown",
            Field::MaxIntermediateRows => "maxIntermediateRows",
            Field::MaxResults => "maxResults",
            Field::UseOfHeap => "useOfHeap",
            Field::Vectorize => "vectorize",
            Field::VectorSize => "vectorSize",
            Field::VectorizeVirtualColumns => "vectorizeVirtualColumns",
        }
    }

    /// Every member name has an outline of its own.
    proof fn lemma_outline_injective(a: Field, b: Field)
        ensures
            outline(a.key()) == outline(b.key()) ==> a == b,
    {
        reveal_strlit("type");
        reveal_strlit("queryType");
        reveal_strlit("name");
        reveal_strlit("dataSources");
        reveal_strlit("columnNames");
        reveal_strlit("rows");
        reveal_strlit("query");
        reveal_strlit("left");
        reveal_strlit("right");
        reveal_strlit("rightPrefix");
        reveal_strlit("condition");
        reveal_strlit("joinType");
        reveal_strlit("base");
        reveal_strlit("virtualColumn");
        reveal_strlit("unnestFilter");
        reveal_strlit("expression");
        reveal_strlit("outputType");
        reveal_strlit("metric");
        reveal_strlit("ordering");
        reveal_strlit("previousStop");
        reveal_strlit("dimension");
        reveal_strlit("outputName");
        reveal_strlit("extractionFn");
        reveal_strlit("delegate");
        reveal_strlit("values");
        reveal_strlit("isWhitelist");
        reveal_strlit("pattern");
        reveal_strlit("prefix");
        reveal_strlit("expr");
        reveal_strlit("index");
        reveal_strlit("replaceMissingValue");
        reveal_strlit("replaceMissingValueWith");
        reveal_strlit("length");
        reveal_strlit("format");
        reveal_strlit("timeZone");
        reveal_strlit("locale");
        reveal_strlit("granularity");
        reveal_strlit("asMillis");
        reveal_strlit("timeFormat");
        reveal_strlit("resultFormat");
        reveal_strlit("joda");
        reveal_strlit("function");
        reveal_strlit("injective");
        reveal_strlit("extractionFns");
        reveal_strlit("nullHandling");
        reveal_strlit("size");
        reveal_strlit("offset");
        reveal_strlit("value");
        reveal_strlit("dimensions");
        reveal_strlit("fields");
        reveal_strlit("field");
        reveal_strlit("extractionFunction");
        reveal_strlit("escape");
        reveal_strlit("lower");
        reveal_strlit("upper");
        reveal_strlit("lowerStrict");
        reveal_strlit("upperStrict");
        reveal_strlit("intervals");
        reveal_strlit("fieldName");
        reveal_strlit("fieldNames");
        reveal_strlit("fnAggregate");
        reveal_strlit("fnCombine");
        reveal_strlit("fnReset");
        reveal_strlit("filter");
        reveal_strlit("aggregator");
        reveal_strlit("groupings");
        reveal_strlit("fn");
        reveal_strlit("aggregation");
        reveal_strlit("havingSpecs");
        reveal_strlit("limit");
        reveal_strlit("columns");
        reveal_strlit("direction");
        reveal_strlit("dimensionOrder");
        reveal_strlit("segmentGranularity");
        reveal_strlit("queryGranularity");
        reveal_strlit("rollup");
        reveal_strlit("caseSensitive");
        reveal_strlit("dataSource");
        reveal_strlit("descending");
        reveal_strlit("aggregations");
        reveal_strlit("postAggregations");
        reveal_strlit("context");
        reveal_strlit("threshold");
        reveal_strlit("limitSpec");
        reveal_strlit("having");
        reveal_strlit("subtotalsSpec");
        reveal_strlit("bound");
        reveal_strlit("toInclude");
        reveal_strlit("merge");
        reveal_strlit("analysisTypes");
        reveal_strlit("lenientAggregatorMerge");
        reveal_strlit("order");
        reveal_strlit("legacy");
        reveal_strlit("searchDimensions");
        reveal_strlit("sort");
        reveal_strlit("error");
        reveal_strlit("errorMessage");
        reveal_strlit("errorClass");
        reveal_strlit("host");
        reveal_strlit("timeout");
        reveal_strlit("priority");
        reveal_strlit("lane");
        reveal_strlit("queryId");
        reveal_strlit("brokerService");
        reveal_strlit("useCache");
        reveal_strlit("populateCache");
        reveal_strlit("useResultLevelCache");
        reveal_strlit("populateResultLevelCache");
        reveal_strlit("bySegment");
        reveal_strlit("finalize");
        reveal_strlit("maxScatterGatherBytes");
        reveal_strlit("maxQueuedBytes");
        reveal_strlit("serializeDateTimeAsLong");
        reveal_strlit("serializeDateTimeAsLongInner");
        reveal_strlit("enableParallelMerge");
        reveal_strlit("parallelMergeParallelism");
        reveal_strlit("parallelMergeInitialYieldRows");
        reveal_strlit("parallelMergeSmallBatchRows");
        reveal_strlit("useFilterCNF");
        reveal_strlit("secondaryPartitionPruning");
        reveal_strlit("enableJoinLeftTableScanDirect");
        reveal_strlit("debug");
        reveal_strlit("minTopNThreshold");
        reveal_strlit("skipEmptyBuckets");
        reveal_strlit("groupByStrategy");
        reveal_strlit("groupByIsSingleThread");
        reveal_strlit("bufferGrouperInitialBuckets");
        reveal_strlit("bufferGrouperMaxLoadFactor");
        reveal_strlit("forceHashAggregation");
        reveal_strlit("intermediateCombineDegree");
        reveal_strlit("numParallelCombineThreads");
        reveal_strlit("applyLimitPushDownToSegment");
        reveal_strlit("sortByDimsFirst");
        reveal_strlit("forceLimitPushDown");
        reveal_strlit("maxIntermediateRows");
        reveal_strlit("maxResults");
        reveal_strlit("useOfHeap");
        reveal_strlit("vectorize");
        reveal_strlit("vectorSize");
        reveal_strlit("vectorizeVirtualColumns");
    }

    /// Two member names that are spelled alike are the same name.
    pub broadcast proof fn lemma_key_injective(a: Field, b: Field)
        ensures
            #![trigger a.key(), b.key()]
            a.key() == b.key() ==> a == b,
    {
        Field::lemma_outline_injective(a, b);
    }
}

/// Building the members of an object one by one.
pub trait Building: Sized {
    /// The members after `doc` is stored under `field`.
    spec fn with(self, field: Field, doc: JsonValue) -> Self;

    /// The members after `doc`, where there is one, is stored under `field`.
    /// An absent value leaves no trace in the object.
    spec fn with_opt(self, field: Field, doc: Option<JsonValue>) -> Self;
}

impl Building for Members {
    #[verifier::opaque]
    open spec fn with(self, field: Field, doc: JsonValue) -> Members {
        self.insert(field.key(), doc)
    }

    #[verifier::opaque]
    open spec fn with_opt(self, field: Field, doc: Option<JsonValue>) -> Members {
        match doc {
            Some(d) => self.with(field, d),
            None => self,
        }
    }
}

/// Whether an object has finitely many members, as every object has that was
/// read from a text or built member by member.
#[verifier::opaque]
pub open spec fn bounded(members: Members) -> bool {
    members.dom().finite()
}

/// What a document holds under `field`: the member of that name, if the
/// document is an object with finitely many members that has one and the
/// member is not `null`.
#[verifier::opaque]
pub open spec fn get(doc: JsonValue, field: Field) -> Option<JsonValue> {
    match doc {
        JsonValue::Object(members) => if bounded(members) {
            match doc.member(field.key()) {
                Some(JsonValue::Null) => None,
                found => found,
            }
        } else {
            None
        },
        _ => None,
    }
}

/// Only an object holds anything; what it holds is never `null`, and is
/// smaller than the object.
pub broadcast proof fn lemma_get_some(doc: JsonValue, field: Field)
    ensures
        (#[trigger] get(doc, field)) matches Some(found) ==> doc is Object && !(found is Null)
            && decreases_to!(doc => found),
{
    reveal(get);
}

/// An object without members has finitely many.
pub broadcast proof fn lemma_bounded_empty()
    ensures
        #[trigger] bounded(no_members()),
{
    reveal(bounded);
}

/// Storing a member keeps the number of members finite.
pub broadcast proof fn lemma_bounded_with(members: Members, field: Field, doc: JsonValue)
    ensures
        #[trigger] bounded(members.with(field, doc)) == bounded(members),
{
    reveal(bounded);
    reveal(<Members as Building>::with);
    let key = field.key();
    if members.insert(key, doc).dom().finite() {
        assert(members.dom() =~= if members.dom().contains(key) {
            members.insert(key, doc).dom()
        } else {
            members.insert(key, doc).dom().remove(key)
        });
    }
}

/// An object without members holds nothing under any name.
pub broadcast proof fn lemma_get_empty(field: Field)
    ensures
        #[trigger] get(JsonValue::Object(no_members()), field) is None,
{
    reveal(get);
    reveal(bounded);
}

/// After a member is stored, the object holds it under its name, and holds
/// under every other name what it held before.
pub broadcast proof fn lemma_get_put(members: Members, field: Field, doc: JsonValue, other: Field)
    ensures
        #[trigger] get(JsonValue::Object(members.with(field, doc)), other) == (if other == field {
            if doc is Null || !bounded(members) {
                None
            } else {
                Some(doc)
            }
        } else {
            get(JsonValue::Object(members), other)
        }),
{
    reveal(get);
    reveal(bounded);
    reveal(<Members as Building>::with);
    Field::lemma_key_injective(field, other);
    lemma_bounded_with(members, field, doc);
}

/// Storing a member that may be absent keeps the number of members finite.
pub broadcast proof fn lemma_bounded_with_opt(
    members: Members,
    field: Field,
    doc: Option<JsonValue>,
)
    ensures
        #[trigger] bounded(members.with_opt(field, doc)) == bounded(members),
{
    reveal(<Members as Building>::with_opt);
    if doc is Some {
        lemma_bounded_with(members, field, doc.unwrap());
    }
}

/// After a member that may be absent is stored, the object holds it under its
/// name where it is there, and holds under every other name what it held
/// before.
pub broadcast proof fn lemma_get_put_opt(
    members: Members,
    field: Field,
    doc: Option<JsonValue>,
    other: Field,
)
    ensures
        #[trigger] get(JsonValue::Object(members.with_opt(field, doc)), other) == (if other == field
            && doc is Some {
            if doc.unwrap() is Null || !bounded(members) {
                None
            } else {
                doc
            }
        } else {
            get(JsonValue::Object(members), other)
        }),
{
    reveal(<Members as Building>::with_opt);
    if doc is Some {
        lemma_get_put(members, field, doc.unwrap(), other);
    }
}

/// The text of a JSON string.
pub open spec fn as_text(doc: JsonValue) -> Option<Seq<char>> {
    match doc {
        JsonValue::String(text) => Some(text),
        _ => None,
    }
}

/// The integer of a JSON number that is a non-negative integer below 2^64.
pub open spec fn as_unsigned(doc: JsonValue) -> Option<u64> {
    match doc {
        JsonValue::Number(JsonNumber::Unsigned(n)) => Some(n),
        _ => None,
    }
}

/// The flag of a JSON boolean.
pub open spec fn as_flag(doc: JsonValue) -> Option<bool> {
    match doc {
        JsonValue::Bool(b) => Some(b),
        _ => None,
    }
}

/// The number of a JSON number.
pub open spec fn as_numeral(doc: JsonValue) -> Option<JsonNumber> {
    match doc {
        JsonValue::Number(n) => Some(n),
        _ => None,
    }
}

/// The JSON array of strings that holds a list of texts.
pub open spec fn texts(list: Seq<Seq<char>>) -> JsonValue {
    JsonValue::Array(list.map_values(|text: Seq<char>| JsonValue::String(text)))
}

/// The list of texts that a JSON array of strings holds.
pub open spec fn as_texts(doc: JsonValue) -> Option<Seq<Seq<char>>> {
    match doc {
        JsonValue::Array(items) => if forall|i: int|
            0 <= i < items.len() ==> (#[trigger] items[i]) is String {
            Some(items.map_values(|item: JsonValue| item->String_0))
        } else {
            None
        },
        _ => None,
    }
}

/// The JSON array of arrays of strings that holds a table of texts.
pub open spec fn text_table(rows: Seq<Seq<Seq<char>>>) -> JsonValue {
    JsonValue::Array(rows.map_values(|row: Seq<Seq<char>>| texts(row)))
}

/// The table of texts that a JSON array of arrays of strings holds.
pub open spec fn as_rows(doc: JsonValue) -> Option<Seq<Seq<Seq<char>>>> {
    match doc {
        JsonValue::Array(items) => if forall|i: int|
            0 <= i < items.len() ==> as_texts(#[trigger] items[i]) is Some {
            Some(items.map_values(|item: JsonValue| as_texts(item).unwrap()))
        } else {
            None
        },
        _ => None,
    }
}

/// Reading back a list of texts gives the list.
pub broadcast proof fn lemma_texts_round_trip(list: Seq<Seq<char>>)
    ensures
        #[trigger] as_texts(texts(list)) == Some(list),
{
    let items = texts(list)->Array_0;
    assert(items.map_values(|item: JsonValue| item->String_0) =~= list);
}

/// Reading back a table of texts gives the table.
pub broadcast proof fn lemma_rows_round_trip(table: Seq<Seq<Seq<char>>>)
    ensures
        #[trigger] as_rows(text_table(table)) == Some(table),
{
    let items = text_table(table)->Array_0;
    assert forall|i: int| 0 <= i < items.len() implies as_texts(#[trigger] items[i]) == Some(
        table[i],
    ) by {
        lemma_texts_round_trip(table[i]);
    }
    assert(items.map_values(|item: JsonValue| as_texts(item).unwrap()) =~= table);
}

/// The document of an integer.
pub open spec fn unsigned(n: u64) -> JsonValue {
    JsonValue::Number(JsonNumber::Unsigned(n))
}

/// The document of a text.
pub open spec fn text(t: Seq<char>) -> JsonValue {
    JsonValue::String(t)
}

/// The document of a flag.
pub open spec fn flag(b: bool) -> JsonValue {
    JsonValue::Bool(b)
}

/// The document of a text that may be absent.
pub open spec fn opt_text(x: Option<Seq<char>>) -> Option<JsonValue> {
    match x {
        Some(present) => Some(text(present)),
        None => None,
    }
}

/// A text that a document must hold under `field`.
pub open spec fn text_at(doc: JsonValue, field: Field) -> Option<Seq<char>> {
    match get(doc, field) {
        Some(found) => as_text(found),
        None => None,
    }
}

/// A text that a document may hold under `field`: the outer
/// `None` says that the member is there and is not a text.
pub open spec fn opt_text_at(doc: JsonValue, field: Field) -> Option<Option<Seq<char>>> {
    match get(doc, field) {
        Some(found) => match as_text(found) {
            Some(present) => Some(Some(present)),
            None => None,
        },
        None => Some(None),
    }
}

/// The document of an integer that may be absent.
pub open spec fn opt_unsigned(x: Option<u64>) -> Option<JsonValue> {
    match x {
        Some(present) => Some(unsigned(present)),
        None => None,
    }
}

/// An integer that a document must hold under `field`.
pub open spec fn unsigned_at(doc: JsonValue, field: Field) -> Option<u64> {
    match get(doc, field) {
        Some(found) => as_unsigned(found),
        None => None,
    }
}

/// An integer that a document may hold under `field`: the outer
/// `None` says that the member is there and is not an integer.
pub open spec fn opt_unsigned_at(doc: JsonValue, field: Field) -> Option<Option<u64>> {
    match get(doc, field) {
        Some(found) => match as_unsigned(found) {
            Some(present) => Some(Some(present)),
            None => None,
        },
        None => Some(None),
    }
}

/// The document of a flag that may be absent.
pub open spec fn opt_flag(x: Option<bool>) -> Option<JsonValue> {
    match x {
        Some(present) => Some(flag(present)),
        None => None,
    }
}

/// A flag that a document must hold under `field`.
pub open spec fn flag_at(doc: JsonValue, field: Field) -> Option<bool> {
    match get(doc, field) {
        Some(found) => as_flag(found),
        None => None,
    }
}

/// A flag that a document may hold under `field`: the outer
/// `None` says that the member is there and is not a flag.
pub open spec fn opt_flag_at(doc: JsonValue, field: Field) -> Option<Option<bool>> {
    match get(doc, field) {
        Some(found) => match as_flag(found) {
            Some(present) => Some(Some(present)),
            None => None,
        },
        None => Some(None),
    }
}

/// The document of a list of texts that may be absent.
pub open spec fn opt_texts(x: Option<Seq<Seq<char>>>) -> Option<JsonValue> {
    match x {
        Some(present) => Some(texts(present)),
        None => None,
    }
}

/// A list of texts that a document must hold under `field`.
pub open spec fn texts_at(doc: JsonValue, field: Field) -> Option<Seq<Seq<char>>> {
    match get(doc, field) {
        Some(found) => as_texts(found),
        None => None,
    }
}

/// A list of texts that a document may hold under `field`: the outer
/// `None` says that the member is there and is not a list of texts.
pub open spec fn opt_texts_at(doc: JsonValue, field: Field) -> Option<Option<Seq<Seq<char>>>> {
    match get(doc, field) {
        Some(found) => match as_texts(found) {
            Some(present) => Some(Some(present)),
            None => None,
        },
        None => Some(None),
    }
}

/// The document of a table of texts that may be absent.
pub open spec fn opt_rows(x: Option<Seq<Seq<Seq<char>>>>) -> Option<JsonValue> {
    match x {
        Some(present) => Some(text_table(present)),
        None => None,
    }
}

/// A table of texts that a document must hold under `field`.
pub open spec fn rows_at(doc: JsonValue, field: Field) -> Option<Seq<Seq<Seq<char>>>> {
    match get(doc, field) {
        Some(found) => as_rows(found),
        None => None,
    }
}

/// A table of texts that a document may hold under `field`: the outer
/// `None` says that the member is there and is not a table of texts.
pub open spec fn opt_rows_at(doc: JsonValue, field: Field) -> Option<Option<Seq<Seq<Seq<char>>>>> {
    match get(doc, field) {
        Some(found) => match as_rows(found) {
            Some(present) => Some(Some(present)),
            None => None,
        },
        None => Some(None),
    }
}

/// A literal value that may be absent, as a document.
pub open spec fn opt_literal<T: Literal>(x: Option<T>) -> Option<JsonValue> {
    match x {
        Some(present) => Some(encode_literal(present)),
        None => None,
    }
}

/// The literal value that a document must hold under `field`.
pub open spec fn literal_at<T: Literal>(doc: JsonValue, field: Field) -> Option<T> {
    match get(doc, field) {
        Some(found) => decode_literal::<T>(found),
        None => None,
    }
}

/// The literal value that a document may hold under `field`: the outer `None`
/// says that the member is there and stands for no value.
pub open spec fn opt_literal_at<T: Literal>(doc: JsonValue, field: Field) -> Option<Option<T>> {
    match get(doc, field) {
        Some(found) => match decode_literal::<T>(found) {
            Some(present) => Some(Some(present)),
            None => None,
        },
        None => Some(None),
    }
}

/// The list of literal values that a document must hold under `field`.
pub open spec fn literals_at<T: Literal>(doc: JsonValue, field: Field) -> Option<Seq<T>> {
    match get(doc, field) {
        Some(found) => decode_literals::<T>(found),
        None => None,
    }
}

/// The member that a value holds under `field`, unless it is absent or `null`.
pub fn member_of<'a>(v: &'a serde_json::Value, field: Field) -> (r: Option<&'a serde_json::Value>)
    ensures
        r is Some <==> get(value_model(*v), field) is Some,
        r matches Some(found) ==> get(value_model(*v), field) == Some(value_model(*found)),
        r matches Some(found) ==> decreases_to!(value_model(*v) => value_model(*found)),
{
    proof {
        reveal(get);
        reveal(bounded);
    }
    match member(v, field.text()) {
        Some(found) => if found.is_null() {
            None
        } else {
            Some(found)
        },
        None => None,
    }
}

/// Stores a value under `field`.
pub fn put_value(members: &mut Object, field: Field, v: serde_json::Value)
    ensures
        map_model(*final(members)) == map_model(*old(members)).with(field, value_model(v)),
{
    proof {
        reveal(<Members as Building>::with);
    }
    set_member(members, field.text(), v);
}

/// The content of a value that may be absent.
pub open spec fn opt_value_model(v: Option<serde_json::Value>) -> Option<JsonValue> {
    match v {
        Some(present) => Some(value_model(present)),
        None => None,
    }
}

/// Stores a value under `field`, unless it is absent.
pub fn put_opt_value(members: &mut Object, field: Field, v: Option<serde_json::Value>)
    ensures
        map_model(*final(members)) == map_model(*old(members)).with_opt(field, opt_value_model(v)),
{
    proof {
        reveal(<Members as Building>::with_opt);
    }
    match v {
        Some(present) => {
            put_value(members, field, present);
        },
        None => {},
    }
}

/// Writes a list of texts as a JSON array of strings.
pub fn texts_value(list: &Vec<String>) -> (v: serde_json::Value)
    ensures
        value_model(v) == texts(list.deep_view()),
{
    let mut items: Vec<serde_json::Value> = Vec::new();
    let mut i: usize = 0;
    while i < list.len()
        invariant
            i <= list.len(),
            items@.len() == i,
            forall|k: int|
                0 <= k < i ==> value_model(#[trigger] items@[k]) == JsonValue::String(list@[k]@),
        decreases list.len() - i,
    {
        items.push(text_value(list[i].as_str()));
        i = i + 1;
    }
    proof {
        assert(value_models(items@) =~= texts(list.deep_view())->Array_0);
    }
    array_value(items)
}

/// Reads a list of texts from a JSON array of strings.
pub fn value_texts(v: &serde_json::Value) -> (r: Option<Vec<String>>)
    ensures
        r.deep_view() == as_texts(value_model(*v)),
{
    let items = v.as_array()?;
    let mut list: Vec<String> = Vec::new();
    let mut i: usize = 0;
    while i < items.len()
        invariant
            i <= items.len(),
            list@.len() == i,
            value_model(*v) == JsonValue::Array(value_models(items@)),
            forall|k: int|
                0 <= k < i ==> value_model(#[trigger] items@[k]) == JsonValue::String(list@[k]@),
        decreases items.len() - i,
    {
        match items[i].as_str() {
            Some(t) => {
                list.push(t.to_owned());
            },
            None => {
                assert(!(value_models(items@)[i as int] is String));
                return None;
            },
        }
        i = i + 1;
    }
    proof {
        assert(as_texts(value_model(*v)).unwrap() =~= list.deep_view());
    }
    Some(list)
}

/// Writes a table of texts as a JSON array of arrays of strings.
pub fn rows_value(table: &Vec<Vec<String>>) -> (v: serde_json::Value)
    ensures
        value_model(v) == text_table(table.deep_view()),
{
    let mut items: Vec<serde_json::Value> = Vec::new();
    let mut i: usize = 0;
    while i < table.len()
        invariant
            i <= table.len(),
            items@.len() == i,
            forall|k: int|
                0 <= k < i ==> value_model(#[trigger] items@[k]) == texts(table@[k].deep_view()),
        decreases table.len() - i,
    {
        items.push(texts_value(&table[i]));
        i = i + 1;
    }
    proof {
        assert(value_models(items@) =~= text_table(table.deep_view())->Array_0);
    }
    array_value(items)
}

/// Reads a table of texts from a JSON array of arrays of strings.
pub fn value_rows(v: &serde_json::Value) -> (r: Option<Vec<Vec<String>>>)
    ensures
        r.deep_view() == as_rows(value_model(*v)),
{
    let items = v.as_array()?;
    let mut table: Vec<Vec<String>> = Vec::new();
    let mut i: usize = 0;
    while i < items.len()
        invariant
            i <= items.len(),
            table@.len() == i,
            value_model(*v) == JsonValue::Array(value_models(items@)),
            forall|k: int|
                0 <= k < i ==> as_texts(value_model(#[trigger] items@[k])) == Some(
                    table@[k].deep_view(),
                ),
        decreases items.len() - i,
    {
        match value_texts(&items[i]) {
            Some(row) => {
                table.push(row);
            },
            None => {
                assert(as_texts(value_models(items@)[i as int]) is None);
                return None;
            },
        }
        i = i + 1;
    }
    proof {
        assert(as_rows(value_model(*v)).unwrap() =~= table.deep_view());
    }
    Some(table)
}

/// Writes a list of literal values as a JSON array of strings.
pub fn literals_value<T: Literal>(list: &Vec<T>) -> (v: serde_json::Value)
    ensures
        value_model(v) == encode_literals(list@),
{
    let mut items: Vec<serde_json::Value> = Vec::new();
    let mut i: usize = 0;
    while i < list.len()
        invariant
            i <= list.len(),
            items@.len() == i,
            forall|k: int|
                0 <= k < i ==> value_model(#[trigger] items@[k]) == encode_literal(list@[k]),
        decreases list.len() - i,
    {
        items.push(literal_value(&list[i]));
        i = i + 1;
    }
    proof {
        assert(value_models(items@) =~= encode_literals(list@)->Array_0);
    }
    array_value(items)
}

/// Reads a list of literal values from a JSON array of strings.
pub fn value_literals<T: Literal>(v: &serde_json::Value) -> (r: Option<Vec<T>>)
    ensures
        r matches Some(list) ==> decode_literals::<T>(value_model(*v)) == Some(list@),
        r is None ==> decode_literals::<T>(value_model(*v)) is None,
{
    let items = v.as_array()?;
    let mut list: Vec<T> = Vec::new();
    let mut i: usize = 0;
    while i < items.len()
        invariant
            i <= items.len(),
            list@.len() == i,
            value_model(*v) == JsonValue::Array(value_models(items@)),
            forall|k: int|
                0 <= k < i ==> decode_literal::<T>(value_model(#[trigger] items@[k])) == Some(
                    list@[k],
                ),
        decreases items.len() - i,
    {
        match value_literal::<T>(&items[i]) {
            Some(t) => {
                list.push(t);
            },
            None => {
                assert(decode_literal::<T>(value_models(items@)[i as int]) is None);
                return None;
            },
        }
        i = i + 1;
    }
    proof {
        assert(decode_literals::<T>(value_model(*v)).unwrap() =~= list@);
    }
    Some(list)
}

/// Stores a text under `field`.
pub fn put_text(members: &mut Object, field: Field, x: &str)
    ensures
        map_model(*final(members)) == map_model(*old(members)).with(field, text(x@)),
{
    put_value(members, field, text_value(x));
}

/// Stores a text under `field`, unless it is absent.
pub fn put_opt_text(members: &mut Object, field: Field, x: &Option<String>)
    ensures
        map_model(*final(members))
            == map_model(*old(members)).with_opt(field, opt_text(x.deep_view())),
{
    proof {
        reveal(<Members as Building>::with_opt);
    }
    match x {
        Some(present) => {
            put_text(members, field, present.as_str());
        },
        None => {},
    }
}

/// Reads a text that must stand under `field`.
pub fn read_text(v: &serde_json::Value, field: Field) -> (r: Option<String>)
    ensures
        r.deep_view() == text_at(value_model(*v), field),
{
    let found = member_of(v, field)?;
    Some(found.as_str()?.to_owned())
}

/// Reads a text that may stand under `field`. The outer `None` says that
/// the member is there and is not a text.
pub fn read_opt_text(v: &serde_json::Value, field: Field) -> (r: Option<Option<String>>)
    ensures
        r.deep_view() == opt_text_at(value_model(*v), field),
{
    match member_of(v, field) {
        Some(found) => Some(Some(found.as_str()?.to_owned())),
        None => Some(None),
    }
}

/// Stores an integer under `field`.
pub fn put_unsigned(members: &mut Object, field: Field, x: u64)
    ensures
        map_model(*final(members)) == map_model(*old(members)).with(field, unsigned(x)),
{
    put_value(members, field, unsigned_value(x));
}

/// Stores an integer under `field`, unless it is absent.
pub fn put_opt_unsigned(members: &mut Object, field: Field, x: Option<u64>)
    ensures
        map_model(*final(members)) == map_model(*old(members)).with_opt(field, opt_unsigned(x)),
{
    proof {
        reveal(<Members as Building>::with_opt);
    }
    match x {
        Some(present) => {
            put_unsigned(members, field, present);
        },
        None => {},
    }
}

/// Reads an integer that must stand under `field`.
pub fn read_unsigned(v: &serde_json::Value, field: Field) -> (r: Option<u64>)
    ensures
        r.deep_view() == unsigned_at(value_model(*v), field),
{
    let found = member_of(v, field)?;
    Some(found.as_u64()?)
}

/// Reads an integer that may stand under `field`. The outer `None` says that
/// the member is there and is not an integer.
pub fn read_opt_unsigned(v: &serde_json::Value, field: Field) -> (r: Option<Option<u64>>)
    ensures
        r.deep_view() == opt_unsigned_at(value_model(*v), field),
{
    match member_of(v, field) {
        Some(found) => Some(Some(found.as_u64()?)),
        None => Some(None),
    }
}

/// Stores a flag under `field`.
pub fn put_flag(members: &mut Object, field: Field, x: bool)
    ensures
        map_model(*final(members)) == map_model(*old(members)).with(field, flag(x)),
{
    put_value(members, field, flag_value(x));
}

/// Stores a flag under `field`, unless it is absent.
pub fn put_opt_flag(members: &mut Object, field: Field, x: Option<bool>)
    ensures
        map_model(*final(members)) == map_model(*old(members)).with_opt(field, opt_flag(x)),
{
    proof {
        reveal(<Members as Building>::with_opt);
    }
    match x {
        Some(present) => {
            put_flag(members, field, present);
        },
        None => {},
    }
}

/// Reads a flag that must stand under `field`.
pub fn read_flag(v: &serde_json::Value, field: Field) -> (r: Option<bool>)
    ensures
        r.deep_view() == flag_at(value_model(*v), field),
{
    let found = member_of(v, field)?;
    Some(found.as_bool()?)
}

/// Reads a flag that may stand under `field`. The outer `None` says that
/// the member is there and is not a flag.
pub fn read_opt_flag(v: &serde_json::Value, field: Field) -> (r: Option<Option<bool>>)
    ensures
        r.deep_view() == opt_flag_at(value_model(*v), field),
{
    match member_of(v, field) {
        Some(found) => Some(Some(found.as_bool()?)),
        None => Some(None),
    }
}

/// Stores a list of texts under `field`.
pub fn put_texts(members: &mut Object, field: Field, x: &Vec<String>)
    ensures
        map_model(*final(members)) == map_model(*old(members)).with(field, texts(x.deep_view())),
{
    put_value(members, field, texts_value(x));
}

/// Stores a list of texts under `field`, unless it is absent.
pub fn put_opt_texts(members: &mut Object, field: Field, x: &Option<Vec<String>>)
    ensures
        map_model(*final(members))
            == map_model(*old(members)).with_opt(field, opt_texts(x.deep_view())),
{
    proof {
        reveal(<Members as Building>::with_opt);
    }
    match x {
        Some(present) => {
            put_texts(members, field, present);
        },
        None => {},
    }
}

/// Reads a list of texts that must stand under `field`.
pub fn read_texts(v: &serde_json::Value, field: Field) -> (r: Option<Vec<String>>)
    ensures
        r.deep_view() == texts_at(value_model(*v), field),
{
    let found = member_of(v, field)?;
    Some(value_texts(found)?)
}

/// Reads a list of texts that may stand under `field`. The outer `None` says that
/// the member is there and is not a list of texts.
pub fn read_opt_texts(v: &serde_json::Value, field: Field) -> (r: Option<Option<Vec<String>>>)
    ensures
        r.deep_view() == opt_texts_at(value_model(*v), field),
{
    match member_of(v, field) {
        Some(found) => Some(Some(value_texts(found)?)),
        None => Some(None),
    }
}

/// Stores a table of texts under `field`.
pub fn put_rows(members: &mut Object, field: Field, x: &Vec<Vec<String>>)
    ensures
        map_model(*final(members))
            == map_model(*old(members)).with(field, text_table(x.deep_view())),
{
    put_value(members, field, rows_value(x));
}

/// Stores a table of texts under `field`, unless it is absent.
pub fn put_opt_rows(members: &mut Object, field: Field, x: &Option<Vec<Vec<String>>>)
    ensures
        map_model(*final(members))
            == map_model(*old(members)).with_opt(field, opt_rows(x.deep_view())),
{
    proof {
        reveal(<Members as Building>::with_opt);
    }
    match x {
        Some(present) => {
            put_rows(members, field, present);
        },
        None => {},
    }
}

/// Reads a table of texts that must stand under `field`.
pub fn read_rows(v: &serde_json::Value, field: Field) -> (r: Option<Vec<Vec<String>>>)
    ensures
        r.deep_view() == rows_at(value_model(*v), field),
{
    let found = member_of(v, field)?;
    Some(value_rows(found)?)
}

/// Reads a table of texts that may stand under `field`. The outer `None` says that
/// the member is there and is not a table of texts.
pub fn read_opt_rows(v: &serde_json::Value, field: Field) -> (r: Option<Option<Vec<Vec<String>>>>)
    ensures
        r.deep_view() == opt_rows_at(value_model(*v), field),
{
    match member_of(v, field) {
        Some(found) => Some(Some(value_rows(found)?)),
        None => Some(None),
    }
}

/// Stores a literal value under `field`.
pub fn put_literal<T: Literal>(members: &mut Object, field: Field, x: &T)
    ensures
        map_model(*final(members)) == map_model(*old(members)).with(field, encode_literal(*x)),
{
    put_value(members, field, literal_value(x));
}

/// Stores a literal value under `field`, unless it is absent.
pub fn put_opt_literal<T: Literal>(members: &mut Object, field: Field, x: &Option<T>)
    ensures
        map_model(*final(members)) == map_model(*old(members)).with_opt(field, opt_literal(*x)),
{
    proof {
        reveal(<Members as Building>::with_opt);
    }
    match x {
        Some(present) => {
            put_literal(members, field, present);
        },
        None => {},
    }
}

/// Stores a list of literal values under `field`.
pub fn put_literals<T: Literal>(members: &mut Object, field: Field, x: &Vec<T>)
    ensures
        map_model(*final(members)) == map_model(*old(members)).with(field, encode_literals(x@)),
{
    put_value(members, field, literals_value(x));
}

/// Reads a literal value that must stand under `field`.
pub fn read_literal<T: Literal>(v: &serde_json::Value, field: Field) -> (r: Option<T>)
    ensures
        r == literal_at::<T>(value_model(*v), field),
{
    let found = member_of(v, field)?;
    value_literal::<T>(found)
}

/// Reads a literal value that may stand under `field`. The outer `None` says
/// that the member is there and stands for no value.
pub fn read_opt_literal<T: Literal>(v: &serde_json::Value, field: Field) -> (r: Option<Option<T>>)
    ensures
        r == opt_literal_at::<T>(value_model(*v), field),
{
    match member_of(v, field) {
        Some(found) => Some(Some(value_literal::<T>(found)?)),
        None => Some(None),
    }
}

/// Reads a list of literal values that must stand under `field`.
pub fn read_literals<T: Literal>(v: &serde_json::Value, field: Field) -> (r: Option<Vec<T>>)
    ensures
        r matches Some(list) ==> literals_at::<T>(value_model(*v), field) == Some(list@),
        r is None ==> literals_at::<T>(value_model(*v), field) is None,
{
    let found = member_of(v, field)?;
    value_literals::<T>(found)
}

/// A copy of a text that may be absent.
pub fn copy_opt_text(x: &Option<String>) -> (r: Option<String>)
    ensures
        r.deep_view() == x.deep_view(),
{
    match x {
        Some(present) => Some(present.clone()),
        None => None,
    }
}

/// A copy of a list of texts.
pub fn copy_texts(list: &Vec<String>) -> (r: Vec<String>)
    ensures
        r.deep_view() == list.deep_view(),
{
    let mut copy: Vec<String> = Vec::new();
    let mut i: usize = 0;
    while i < list.len()
        invariant
            i <= list.len(),
            copy@.len() == i,
            forall|k: int| 0 <= k < i ==> (#[trigger] copy@[k])@ == list@[k]@,
        decreases list.len() - i,
    {
        copy.push(list[i].clone());
        i = i + 1;
    }
    proof {
        assert(copy.deep_view() =~= list.deep_view());
    }
    copy
}

/// A copy of a list of texts that may be absent.
pub fn copy_opt_texts(x: &Option<Vec<String>>) -> (r: Option<Vec<String>>)
    ensures
        r.deep_view() == x.deep_view(),
{
    match x {
        Some(present) => Some(copy_texts(present)),
        None => None,
    }
}

/// A copy of a table of texts.
pub fn copy_rows(table: &Vec<Vec<String>>) -> (r: Vec<Vec<String>>)
    ensures
        r.deep_view() == table.deep_view(),
{
    let mut copy: Vec<Vec<String>> = Vec::new();
    let mut i: usize = 0;
    while i < table.len()
        invariant
            i <= table.len(),
            copy@.len() == i,
            forall|k: int|
                0 <= k < i ==> (#[trigger] copy@[k]).deep_view() == table@[k].deep_view(),
        decreases table.len() - i,
    {
        copy.push(copy_texts(&table[i]));
        i = i + 1;
    }
    proof {
        assert(copy.deep_view() =~= table.deep_view());
    }
    copy
}

/// A copy of a table of texts that may be absent.
pub fn copy_opt_rows(x: &Option<Vec<Vec<String>>>) -> (r: Option<Vec<Vec<String>>>)
    ensures
        r.deep_view() == x.deep_view(),
{
    match x {
        Some(present) => Some(copy_rows(present)),
        None => None,
    }
}

/// A copy of a list of literal values.
pub fn copy_literals<T: Literal + Copy>(list: &Vec<T>) -> (r: Vec<T>)
    ensures
        r@ == list@,
{
    let mut copy: Vec<T> = Vec::new();
    let mut i: usize = 0;
    while i < list.len()
        invariant
            i <= list.len(),
            copy@.len() == i,
            forall|k: int| 0 <= k < i ==> (#[trigger] copy@[k]) == list@[k],
        decreases list.len() - i,
    {
        copy.push(list[i]);
        i = i + 1;
    }
    proof {
        assert(copy@ =~= list@);
    }
    copy
}

} // verus!
