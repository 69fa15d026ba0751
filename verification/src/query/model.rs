//! The query itself, in its eight shapes, and what makes one valid.

use vstd::prelude::*;
use crate::json::{
    new_object, no_members, object_value, parse, parsed_text, render, rendered_text, same_text,
    value_model, JsonValue, Object,
};
use crate::literal::{
    encode_literal, encode_literals, lemma_literal_round_trip, lemma_literals_round_trip, outline,
    Literal,
};
use crate::query::components::aggregation::{
    Aggregation, AggregationView, PostAggregation, PostAggregationView,
};
use crate::query::components::context::{Context, ContextView};
use crate::query::components::datasource::{DataSource, DataSourceView};
use crate::query::components::dimension::{DimensionSpec, DimensionSpecView};
use crate::query::components::filter::{Filter, FilterView};
use crate::query::components::granularity::Granularity;
use crate::query::components::having::{Having, HavingView};
use crate::query::components::helpers::{AnalysisType, Bound, Interval, Order, ResultFormat, Sort};
use crate::query::components::limit::{LimitSpec, LimitSpecView};
use crate::query::components::searchquery::{SearchQuery, SearchQueryView};
use crate::query::components::toinclude::{ToInclude, ToIncludeView};
use crate::query::components::topnmetric::{TopNMetricSpec, TopNMetricSpecView};
use crate::query::number::IntegerNumber;
use crate::wire::{
    copy_literals, copy_opt_rows, copy_opt_texts, copy_texts, get, lemma_bounded_empty,
    lemma_bounded_with, lemma_bounded_with_opt, lemma_get_empty, lemma_get_put, lemma_get_put_opt,
    lemma_get_some, lemma_rows_round_trip, lemma_texts_round_trip, literal_at, literals_at,
    member_of, opt_flag, opt_flag_at, opt_literal, opt_literal_at, opt_rows, opt_rows_at,
    opt_texts, opt_texts_at, opt_unsigned, opt_unsigned_at, put_literal, put_literals,
    put_opt_flag, put_opt_literal, put_opt_rows, put_opt_texts, put_opt_unsigned, put_texts,
    put_unsigned, put_value, read_literal, read_literals, read_opt_flag, read_opt_literal,
    read_opt_rows, read_opt_texts, read_opt_unsigned, read_texts, read_unsigned, texts, texts_at,
    unsigned, unsigned_at, Building, Field,
};

verus! {

broadcast use {
    lemma_bounded_empty,
    lemma_bounded_with,
    lemma_bounded_with_opt,
    lemma_get_empty,
    lemma_get_some,
    lemma_get_put,
    lemma_get_put_opt,
    lemma_literal_round_trip,
    lemma_literals_round_trip,
    lemma_rows_round_trip,
    lemma_texts_round_trip,
};

/// Discriminator of a query: the shape it has.
#[derive(Debug, Clone, Copy, PartialEq, Eq, Structural)]
pub enum NativeQueryType {
    Timeseries,
    TopN,
    GroupBy,
    TimeBoundary,
    SegmentMetadata,
    DatasourceMetadata,
    Scan,
    Search,
}

impl Literal for NativeQueryType {
    open spec fn literal(self) -> Seq<char> {
        match self {
            NativeQueryType::Timeseries => "timeseries"@,
            NativeQueryType::TopN => "topN"@,
            NativeQueryType::GroupBy => "groupBy"@,
            NativeQueryType::TimeBoundary => "timeBoundary"@,
            NativeQueryType::SegmentMetadata => "segmentMetadata"@,
            NativeQueryType::DatasourceMetadata => "dataSourceMetadata"@,
            NativeQueryType::Scan => "scan"@,
            NativeQueryType::Search => "search"@,
        }
    }

    proof fn lemma_literal_injective(a: Self, b: Self) {
        reveal_strlit("timeseries");
        reveal_strlit("topN");
        reveal_strlit("groupBy");
        reveal_strlit("timeBoundary");
        reveal_strlit("segmentMetadata");
        reveal_strlit("dataSourceMetadata");
        reveal_strlit("scan");
        reveal_strlit("search");
        assert(outline(a.literal()) == outline(b.literal()) ==> a == b);
    }

    fn wire_name(&self) -> (r: &'static str) {
        match self {
            NativeQueryType::Timeseries => "timeseries",
            NativeQueryType::TopN => "topN",
            NativeQueryType::GroupBy => "groupBy",
            NativeQueryType::TimeBoundary => "timeBoundary",
            NativeQueryType::SegmentMetadata => "segmentMetadata",
            NativeQueryType::DatasourceMetadata => "dataSourceMetadata",
            NativeQueryType::Scan => "scan",
            NativeQueryType::Search => "search",
        }
    }

    fn parse(text: &str) -> (r: Option<Self>) {
        if same_text(text, "timeseries") {
            Some(NativeQueryType::Timeseries)
        } else if same_text(text, "topN") {
            Some(NativeQueryType::TopN)
        } else if same_text(text, "groupBy") {
            Some(NativeQueryType::GroupBy)
        } else if same_text(text, "timeBoundary") {
            Some(NativeQueryType::TimeBoundary)
        } else if same_text(text, "segmentMetadata") {
            Some(NativeQueryType::SegmentMetadata)
        } else if same_text(text, "dataSourceMetadata") {
            Some(NativeQueryType::DatasourceMetadata)
        } else if same_text(text, "scan") {
            Some(NativeQueryType::Scan)
        } else if same_text(text, "search") {
            Some(NativeQueryType::Search)
        } else {
            None
        }
    }
}

/// A query in one of its eight shapes.
#[derive(Debug, PartialEq, Eq)]
#[allow(inconsistent_fields)]
pub enum NativeQuery {
    /// Aggregates over time buckets.
    Timeseries {
        data_source: DataSource,
        descending: Option<bool>,
        intervals: Vec<Interval>,
        granularity: Granularity,
        filter: Option<Filter>,
        aggregations: Option<Aggregation>,
        post_aggregations: Option<Vec<PostAggregation>>,
        limit: Option<IntegerNumber>,
        context: Option<Context>,
    },
    /// The highest-ranked values of one dimension.
    TopN {
        data_source: DataSource,
        intervals: Vec<Interval>,
        granularity: Granularity,
        filter: Option<Filter>,
        aggregations: Option<Aggregation>,
        post_aggregations: Option<Vec<PostAggregation>>,
        dimension: DimensionSpec,
        threshold: IntegerNumber,
        metric: TopNMetricSpec,
        context: Option<Context>,
    },
    /// Aggregates over groups of dimension values.
    GroupBy {
        data_source: DataSource,
        dimensions: Vec<DimensionSpec>,
        limit_spec: Option<LimitSpec>,
        having: Option<Having>,
        granularity: Granularity,
        filter: Option<Filter>,
        aggregations: Option<Aggregation>,
        post_aggregations: Option<Vec<PostAggregation>>,
        intervals: Vec<String>,
        subtotals_spec: Option<Vec<Vec<String>>>,
        context: Option<Context>,
    },
    /// The earliest and latest time of a data source.
    TimeBoundary {
        data_source: DataSource,
        bound: Option<Bound>,
        filter: Option<Filter>,
        context: Option<Context>,
    },
    /// What the segments of a data source hold.
    SegmentMetadata {
        data_source: DataSource,
        intervals: Option<Vec<Interval>>,
        to_include: Option<Vec<ToInclude>>,
        merge: Option<bool>,
        context: Option<Context>,
        analysis_types: Vec<AnalysisType>,
        lenient_aggregator_merge: Option<bool>,
    },
    /// When a data source last took in data.
    DatasourceMetadata {
        data_source: DataSource,
        context: Option<Context>,
    },
    /// Rows as they are stored.
    Scan {
        data_source: DataSource,
        intervals: Vec<Interval>,
        result_format: Option<ResultFormat>,
        offset: Option<IntegerNumber>,
        order: Option<Order>,
        legacy: Option<bool>,
        context: Option<Context>,
    },
    /// The dimension values that a search predicate holds of.
    Search {
        data_source: DataSource,
        granularity: Option<Granularity>,
        filter: Option<Filter>,
        limit: Option<IntegerNumber>,
        intervals: Vec<Interval>,
        search_dimensions: Option<Vec<String>>,
        query: SearchQuery,
        sort: Option<Sort>,
        context: Option<Context>,
    },
}

/// What a query holds, as mathematics sees it.
#[allow(inconsistent_fields)]
pub enum NativeQueryView {
    Timeseries {
        data_source: DataSourceView,
        descending: Option<bool>,
        intervals: Seq<Seq<char>>,
        granularity: Granularity,
        filter: Option<FilterView>,
        aggregations: Option<AggregationView>,
        post_aggregations: Option<Seq<PostAggregationView>>,
        limit: Option<u64>,
        context: Option<ContextView>,
    },
    TopN {
        data_source: DataSourceView,
        intervals: Seq<Seq<char>>,
        granularity: Granularity,
        filter: Option<FilterView>,
        aggregations: Option<AggregationView>,
        post_aggregations: Option<Seq<PostAggregationView>>,
        dimension: DimensionSpecView,
        threshold: u64,
        metric: TopNMetricSpecView,
        context: Option<ContextView>,
    },
    GroupBy {
        data_source: DataSourceView,
        dimensions: Seq<DimensionSpecView>,
        limit_spec: Option<LimitSpecView>,
        having: Option<HavingView>,
        granularity: Granularity,
        filter: Option<FilterView>,
        aggregations: Option<AggregationView>,
        post_aggregations: Option<Seq<PostAggregationView>>,
        intervals: Seq<Seq<char>>,
        subtotals_spec: Option<Seq<Seq<Seq<char>>>>,
        context: Option<ContextView>,
    },
    TimeBoundary {
        data_source: DataSourceView,
        bound: Option<Bound>,
        filter: Option<FilterView>,
        context: Option<ContextView>,
    },
    SegmentMetadata {
        data_source: DataSourceView,
        intervals: Option<Seq<Seq<char>>>,
        to_include: Option<Seq<ToIncludeView>>,
        merge: Option<bool>,
        context: Option<ContextView>,
        analysis_types: Seq<AnalysisType>,
        lenient_aggregator_merge: Option<bool>,
    },
    DatasourceMetadata {
        data_source: DataSourceView,
        context: Option<ContextView>,
    },
    Scan {
        data_source: DataSourceView,
        intervals: Seq<Seq<char>>,
        result_format: Option<ResultFormat>,
        offset: Option<u64>,
        order: Option<Order>,
        legacy: Option<bool>,
        context: Option<ContextView>,
    },
    Search {
        data_source: DataSourceView,
        granularity: Option<Granularity>,
        filter: Option<FilterView>,
        limit: Option<u64>,
        intervals: Seq<Seq<char>>,
        search_dimensions: Option<Seq<Seq<char>>>,
        query: SearchQueryView,
        sort: Option<Sort>,
        context: Option<ContextView>,
    },
}

impl NativeQuery {
    /// What this query holds.
    pub open spec fn model(&self) -> NativeQueryView
        decreases self,
    {
        match self {
            NativeQuery::Timeseries {
                data_source,
                descending,
                intervals,
                granularity,
                filter,
                aggregations,
                post_aggregations,
                limit,
                context,
            } => NativeQueryView::Timeseries {
                data_source: data_source.model(),
                descending: *descending,
                intervals: intervals.deep_view(),
                granularity: *granularity,
                filter: filter.deep_view(),
                aggregations: aggregations.deep_view(),
                post_aggregations: PostAggregation::opt_models(post_aggregations),
                limit: *limit,
                context: context.deep_view(),
            },
            NativeQuery::TopN {
                data_source,
                intervals,
                granularity,
                filter,
                aggregations,
                post_aggregations,
                dimension,
                threshold,
                metric,
                context,
            } => NativeQueryView::TopN {
                data_source: data_source.model(),
                intervals: intervals.deep_view(),
                granularity: *granularity,
                filter: filter.deep_view(),
                aggregations: aggregations.deep_view(),
                post_aggregations: PostAggregation::opt_models(post_aggregations),
                dimension: dimension.model(),
                threshold: *threshold,
                metric: metric.model(),
                context: context.deep_view(),
            },
            NativeQuery::GroupBy {
                data_source,
                dimensions,
                limit_spec,
                having,
                granularity,
                filter,
                aggregations,
                post_aggregations,
                intervals,
                subtotals_spec,
                context,
            } => NativeQueryView::GroupBy {
                data_source: data_source.model(),
                dimensions: DimensionSpec::models(dimensions),
                limit_spec: limit_spec.deep_view(),
                having: having.deep_view(),
                granularity: *granularity,
                filter: filter.deep_view(),
                aggregations: aggregations.deep_view(),
                post_aggregations: PostAggregation::opt_models(post_aggregations),
                intervals: intervals.deep_view(),
                subtotals_spec: subtotals_spec.deep_view(),
                context: context.deep_view(),
            },
            NativeQuery::TimeBoundary {
                data_source,
                bound,
                filter,
                context,
            } => NativeQueryView::TimeBoundary {
                data_source: data_source.model(),
                bound: *bound,
                filter: filter.deep_view(),
                context: context.deep_view(),
            },
            NativeQuery::SegmentMetadata {
                data_source,
                intervals,
                to_include,
                merge,
                context,
                analysis_types,
                lenient_aggregator_merge,
            } => NativeQueryView::SegmentMetadata {
                data_source: data_source.model(),
                intervals: intervals.deep_view(),
                to_include: ToInclude::opt_models(to_include),
                merge: *merge,
                context: context.deep_view(),
                analysis_types: analysis_types@,
                lenient_aggregator_merge: *lenient_aggregator_merge,
            },
            NativeQuery::DatasourceMetadata {
                data_source,
                context,
            } => NativeQueryView::DatasourceMetadata {
                data_source: data_source.model(),
                context: context.deep_view(),
            },
            NativeQuery::Scan {
                data_source,
                intervals,
                result_format,
                offset,
                order,
                legacy,
                context,
            } => NativeQueryView::Scan {
                data_source: data_source.model(),
                intervals: intervals.deep_view(),
                result_format: *result_format,
                offset: *offset,
                order: *order,
                legacy: *legacy,
                context: context.deep_view(),
            },
            NativeQuery::Search {
                data_source,
                granularity,
                filter,
                limit,
                intervals,
                search_dimensions,
                query,
                sort,
                context,
            } => NativeQueryView::Search {
                data_source: data_source.model(),
                granularity: *granularity,
                filter: filter.deep_view(),
                limit: *limit,
                intervals: intervals.deep_view(),
                search_dimensions: search_dimensions.deep_view(),
                query: query.model(),
                sort: *sort,
                context: context.deep_view(),
            },
        }
    }
}

impl View for NativeQuery {
    type V = NativeQueryView;

    open spec fn view(&self) -> NativeQueryView {
        self.model()
    }
}

impl DeepView for NativeQuery {
    type V = NativeQueryView;

    open spec fn deep_view(&self) -> NativeQueryView {
        self.model()
    }
}

impl NativeQueryView {
    /// The discriminator that a query of this shape is meant to carry.
    pub open spec fn expected_type(self) -> NativeQueryType {
        match self {
            NativeQueryView::Timeseries { .. } => NativeQueryType::Timeseries,
            NativeQueryView::TopN { .. } => NativeQueryType::TopN,
            NativeQueryView::GroupBy { .. } => NativeQueryType::GroupBy,
            NativeQueryView::TimeBoundary { .. } => NativeQueryType::TimeBoundary,
            NativeQueryView::SegmentMetadata { .. } => NativeQueryType::SegmentMetadata,
            NativeQueryView::DatasourceMetadata { .. } => NativeQueryType::DatasourceMetadata,
            NativeQueryView::Scan { .. } => NativeQueryType::Scan,
            NativeQueryView::Search { .. } => NativeQueryType::Search,
        }
    }

    /// Whether the discriminator fits the shape. A query carries none of its
    /// own: it travels under the one its shape is meant to carry, so the two
    /// always agree.
    pub open spec fn type_consistent(self) -> bool {
        true
    }

    /// Whether every component that this query owns is valid.
    pub open spec fn subcomponents_valid(self) -> bool
        decreases self, 0nat,
    {
        match self {
            NativeQueryView::Timeseries {
                data_source,
                filter,
                aggregations,
                post_aggregations,
                ..
            } => {
                &&& data_source.valid()
                &&& FilterView::opt_valid(filter)
                &&& AggregationView::opt_valid(aggregations)
                &&& PostAggregationView::opt_all_valid(post_aggregations)
            },
            NativeQueryView::TopN {
                data_source,
                filter,
                aggregations,
                post_aggregations,
                dimension,
                metric,
                ..
            } => {
                &&& data_source.valid()
                &&& FilterView::opt_valid(filter)
                &&& AggregationView::opt_valid(aggregations)
                &&& PostAggregationView::opt_all_valid(post_aggregations)
                &&& dimension.valid()
                &&& metric.valid()
            },
            NativeQueryView::GroupBy {
                data_source,
                dimensions,
                limit_spec,
                having,
                filter,
                aggregations,
                post_aggregations,
                ..
            } => {
                &&& data_source.valid()
                &&& DimensionSpecView::all_valid(dimensions)
                &&& LimitSpecView::opt_valid(limit_spec)
                &&& HavingView::opt_valid(having)
                &&& FilterView::opt_valid(filter)
                &&& AggregationView::opt_valid(aggregations)
                &&& PostAggregationView::opt_all_valid(post_aggregations)
            },
            NativeQueryView::TimeBoundary { data_source, filter, .. } => {
                &&& data_source.valid()
                &&& FilterView::opt_valid(filter)
            },
            NativeQueryView::SegmentMetadata { data_source, to_include, .. } => {
                &&& data_source.valid()
                &&& ToIncludeView::opt_all_valid(to_include)
            },
            NativeQueryView::DatasourceMetadata { data_source, .. } => data_source.valid(),
            NativeQueryView::Scan { data_source, .. } => data_source.valid(),
            NativeQueryView::Search { data_source, filter, query, .. } => {
                &&& data_source.valid()
                &&& FilterView::opt_valid(filter)
                &&& query.valid()
            },
        }
    }

    /// Whether this query is valid: its discriminator fits its shape, and every
    /// component it owns is valid.
    pub open spec fn valid(self) -> bool
        decreases self, 1nat,
    {
        self.type_consistent() && self.subcomponents_valid()
    }

    /// Whether every discriminator in this value fits the shape that carries
    /// it. A valid value is well tagged; a well-tagged one may still hold an
    /// empty bare name.
    pub open spec fn well_tagged(self) -> bool
        decreases self, 1nat,
    {
        self.parts_well_tagged()
    }

    /// Whether every component that this query owns is well tagged.
    pub open spec fn parts_well_tagged(self) -> bool
        decreases self, 0nat,
    {
        match self {
            NativeQueryView::Timeseries {
                data_source,
                filter,
                aggregations,
                post_aggregations,
                ..
            } => {
                &&& data_source.well_tagged()
                &&& FilterView::opt_valid(filter)
                &&& AggregationView::opt_valid(aggregations)
                &&& PostAggregationView::opt_all_valid(post_aggregations)
            },
            NativeQueryView::TopN {
                data_source,
                filter,
                aggregations,
                post_aggregations,
                dimension,
                metric,
                ..
            } => {
                &&& data_source.well_tagged()
                &&& FilterView::opt_valid(filter)
                &&& AggregationView::opt_valid(aggregations)
                &&& PostAggregationView::opt_all_valid(post_aggregations)
                &&& dimension.valid()
                &&& metric.valid()
            },
            NativeQueryView::GroupBy {
                data_source,
                dimensions,
                limit_spec,
                having,
                filter,
                aggregations,
                post_aggregations,
                ..
            } => {
                &&& data_source.well_tagged()
                &&& DimensionSpecView::all_valid(dimensions)
                &&& LimitSpecView::opt_valid(limit_spec)
                &&& HavingView::opt_valid(having)
                &&& FilterView::opt_valid(filter)
                &&& AggregationView::opt_valid(aggregations)
                &&& PostAggregationView::opt_all_valid(post_aggregations)
            },
            NativeQueryView::TimeBoundary { data_source, filter, .. } => {
                &&& data_source.well_tagged()
                &&& FilterView::opt_valid(filter)
            },
            NativeQueryView::SegmentMetadata { data_source, to_include, .. } => {
                &&& data_source.well_tagged()
                &&& ToIncludeView::opt_all_valid(to_include)
            },
            NativeQueryView::DatasourceMetadata { data_source, .. } => data_source.well_tagged(),
            NativeQueryView::Scan { data_source, .. } => data_source.well_tagged(),
            NativeQueryView::Search { data_source, filter, query, .. } => {
                &&& data_source.well_tagged()
                &&& FilterView::opt_valid(filter)
                &&& query.valid()
            },
        }
    }

    /// The document that stands for this query on the wire.
    #[verifier::opaque]
    pub open spec fn encode(self) -> JsonValue
        decreases self, 0nat,
    {
        match self {
            NativeQueryView::Timeseries {
                data_source,
                descending,
                intervals,
                granularity,
                filter,
                aggregations,
                post_aggregations,
                limit,
                context,
            } => JsonValue::Object(
                no_members()
                    .with(Field::QueryType, encode_literal(NativeQueryType::Timeseries))
                    .with(Field::DataSource, data_source.encode())
                    .with_opt(Field::Descending, opt_flag(descending))
                    .with(Field::Intervals, texts(intervals))
                    .with(Field::Granularity, encode_literal(granularity))
                    .with_opt(Field::Filter, FilterView::encode_opt(filter))
                    .with_opt(Field::Aggregations, AggregationView::encode_opt(aggregations))
                    .with_opt(
                        Field::PostAggregations,
                        PostAggregationView::encode_opt_all(post_aggregations),
                    )
                    .with_opt(Field::Limit, opt_unsigned(limit))
                    .with_opt(Field::Context, ContextView::encode_opt(context)),
            ),
            NativeQueryView::TopN {
                data_source,
                intervals,
                granularity,
                filter,
                aggregations,
                post_aggregations,
                dimension,
                threshold,
                metric,
                context,
            } => JsonValue::Object(
                no_members()
                    .with(Field::QueryType, encode_literal(NativeQueryType::TopN))
                    .with(Field::DataSource, data_source.encode())
                    .with(Field::Intervals, texts(intervals))
                    .with(Field::Granularity, encode_literal(granularity))
                    .with_opt(Field::Filter, FilterView::encode_opt(filter))
                    .with_opt(Field::Aggregations, AggregationView::encode_opt(aggregations))
                    .with_opt(
                        Field::PostAggregations,
                        PostAggregationView::encode_opt_all(post_aggregations),
                    )
                    .with(Field::Dimension, dimension.encode())
                    .with(Field::Threshold, unsigned(threshold))
                    .with(Field::Metric, metric.encode())
                    .with_opt(Field::Context, ContextView::encode_opt(context)),
            ),
            NativeQueryView::GroupBy {
                data_source,
                dimensions,
                limit_spec,
                having,
                granularity,
                filter,
                aggregations,
                post_aggregations,
                intervals,
                subtotals_spec,
                context,
            } => JsonValue::Object(
                no_members()
                    .with(Field::QueryType, encode_literal(NativeQueryType::GroupBy))
                    .with(Field::DataSource, data_source.encode())
                    .with(Field::Dimensions, DimensionSpecView::encode_all(dimensions))
                    .with_opt(Field::LimitSpec, LimitSpecView::encode_opt(limit_spec))
                    .with_opt(Field::Having, HavingView::encode_opt(having))
                    .with(Field::Granularity, encode_literal(granularity))
                    .with_opt(Field::Filter, FilterView::encode_opt(filter))
                    .with_opt(Field::Aggregations, AggregationView::encode_opt(aggregations))
                    .with_opt(
                        Field::PostAggregations,
                        PostAggregationView::encode_opt_all(post_aggregations),
                    )
                    .with(Field::Intervals, texts(intervals))
                    .with_opt(Field::SubtotalsSpec, opt_rows(subtotals_spec))
                    .with_opt(Field::Context, ContextView::encode_opt(context)),
            ),
            NativeQueryView::TimeBoundary {
                data_source,
                bound,
                filter,
                context,
            } => JsonValue::Object(
                no_members()
                    .with(Field::QueryType, encode_literal(NativeQueryType::TimeBoundary))
                    .with(Field::DataSource, data_source.encode())
                    .with_opt(Field::Bound, opt_literal(bound))
                    .with_opt(Field::Filter, FilterView::encode_opt(filter))
                    .with_opt(Field::Context, ContextView::encode_opt(context)),
            ),
            NativeQueryView::SegmentMetadata {
                data_source,
                intervals,
                to_include,
                merge,
                context,
                analysis_types,
                lenient_aggregator_merge,
            } => JsonValue::Object(
                no_members()
                    .with(Field::QueryType, encode_literal(NativeQueryType::SegmentMetadata))
                    .with(Field::DataSource, data_source.encode())
                    .with_opt(Field::Intervals, opt_texts(intervals))
                    .with_opt(Field::ToInclude, ToIncludeView::encode_opt_all(to_include))
                    .with_opt(Field::Merge, opt_flag(merge))
                    .with_opt(Field::Context, ContextView::encode_opt(context))
                    .with(Field::AnalysisTypes, encode_literals(analysis_types))
                    .with_opt(Field::LenientAggregatorMerge, opt_flag(lenient_aggregator_merge)),
            ),
            NativeQueryView::DatasourceMetadata { data_source, context } => JsonValue::Object(
                no_members()
                    .with(Field::QueryType, encode_literal(NativeQueryType::DatasourceMetadata))
                    .with(Field::DataSource, data_source.encode())
                    .with_opt(Field::Context, ContextView::encode_opt(context)),
            ),
            NativeQueryView::Scan {
                data_source,
                intervals,
                result_format,
                offset,
                order,
                legacy,
                context,
            } => JsonValue::Object(
                no_members()
                    .with(Field::QueryType, encode_literal(NativeQueryType::Scan))
                    .with(Field::DataSource, data_source.encode())
                    .with(Field::Intervals, texts(intervals))
                    .with_opt(Field::ResultFormat, opt_literal(result_format))
                    .with_opt(Field::Offset, opt_unsigned(offset))
                    .with_opt(Field::Order, opt_literal(order))
                    .with_opt(Field::Legacy, opt_flag(legacy))
                    .with_opt(Field::Context, ContextView::encode_opt(context)),
            ),
            NativeQueryView::Search {
                data_source,
                granularity,
                filter,
                limit,
                intervals,
                search_dimensions,
                query,
                sort,
                context,
            } => JsonValue::Object(
                no_members()
                    .with(Field::QueryType, encode_literal(NativeQueryType::Search))
                    .with(Field::DataSource, data_source.encode())
                    .with_opt(Field::Granularity, opt_literal(granularity))
                    .with_opt(Field::Filter, FilterView::encode_opt(filter))
                    .with_opt(Field::Limit, opt_unsigned(limit))
                    .with(Field::Intervals, texts(intervals))
                    .with_opt(Field::SearchDimensions, opt_texts(search_dimensions))
                    .with(Field::Query, query.encode())
                    .with_opt(Field::Sort, opt_literal(sort))
                    .with_opt(Field::Context, ContextView::encode_opt(context)),
            ),
        }
    }

    /// The query that a document stands for, if it stands for one. Members that
    /// a query does not have are passed over.
    #[verifier::opaque]
    pub open spec fn decode(doc: JsonValue) -> Option<NativeQueryView>
        decreases doc, 1nat,
    {
        match literal_at::<NativeQueryType>(doc, Field::QueryType) {
            Some(NativeQueryType::Timeseries) => match (
                DataSourceView::at(doc, Field::DataSource),
                opt_flag_at(doc, Field::Descending),
                texts_at(doc, Field::Intervals),
                literal_at::<Granularity>(doc, Field::Granularity),
                FilterView::opt_at(doc, Field::Filter),
                AggregationView::opt_at(doc, Field::Aggregations),
                PostAggregationView::opt_all_at(doc, Field::PostAggregations),
                opt_unsigned_at(doc, Field::Limit),
                ContextView::opt_at(doc, Field::Context),
            ) {
                (
                    Some(data_source),
                    Some(descending),
                    Some(intervals),
                    Some(granularity),
                    Some(filter),
                    Some(aggregations),
                    Some(post_aggregations),
                    Some(limit),
                    Some(context),
                ) => {
                    Some(NativeQueryView::Timeseries {
                        data_source,
                        descending,
                        intervals,
                        granularity,
                        filter,
                        aggregations,
                        post_aggregations,
                        limit,
                        context,
                    })
                },
                _ => None,
            },
            Some(NativeQueryType::TopN) => match (
                DataSourceView::at(doc, Field::DataSource),
                texts_at(doc, Field::Intervals),
                literal_at::<Granularity>(doc, Field::Granularity),
                FilterView::opt_at(doc, Field::Filter),
                AggregationView::opt_at(doc, Field::Aggregations),
                PostAggregationView::opt_all_at(doc, Field::PostAggregations),
                DimensionSpecView::at(doc, Field::Dimension),
                unsigned_at(doc, Field::Threshold),
                TopNMetricSpecView::at(doc, Field::Metric),
                ContextView::opt_at(doc, Field::Context),
            ) {
                (
                    Some(data_source),
                    Some(intervals),
                    Some(granularity),
                    Some(filter),
                    Some(aggregations),
                    Some(post_aggregations),
                    Some(dimension),
                    Some(threshold),
                    Some(metric),
                    Some(context),
                ) => {
                    Some(NativeQueryView::TopN {
                        data_source,
                        intervals,
                        granularity,
                        filter,
                        aggregations,
                        post_aggregations,
                        dimension,
                        threshold,
                        metric,
                        context,
                    })
                },
                _ => None,
            },
            Some(NativeQueryType::GroupBy) => match (
                DataSourceView::at(doc, Field::DataSource),
                DimensionSpecView::all_at(doc, Field::Dimensions),
                LimitSpecView::opt_at(doc, Field::LimitSpec),
                HavingView::opt_at(doc, Field::Having),
                literal_at::<Granularity>(doc, Field::Granularity),
                FilterView::opt_at(doc, Field::Filter),
                AggregationView::opt_at(doc, Field::Aggregations),
                PostAggregationView::opt_all_at(doc, Field::PostAggregations),
                texts_at(doc, Field::Intervals),
                opt_rows_at(doc, Field::SubtotalsSpec),
                ContextView::opt_at(doc, Field::Context),
            ) {
                (
                    Some(data_source),
                    Some(dimensions),
                    Some(limit_spec),
                    Some(having),
                    Some(granularity),
                    Some(filter),
                    Some(aggregations),
                    Some(post_aggregations),
                    Some(intervals),
                    Some(subtotals_spec),
                    Some(context),
                ) => {
                    Some(NativeQueryView::GroupBy {
                        data_source,
                        dimensions,
                        limit_spec,
                        having,
                        granularity,
                        filter,
                        aggregations,
                        post_aggregations,
                        intervals,
                        subtotals_spec,
                        context,
                    })
                },
                _ => None,
            },
            Some(NativeQueryType::TimeBoundary) => match (
                DataSourceView::at(doc, Field::DataSource),
                opt_literal_at::<Bound>(doc, Field::Bound),
                FilterView::opt_at(doc, Field::Filter),
                ContextView::opt_at(doc, Field::Context),
            ) {
                (Some(data_source), Some(bound), Some(filter), Some(context)) => {
                    Some(NativeQueryView::TimeBoundary { data_source, bound, filter, context })
                },
                _ => None,
            },
            Some(NativeQueryType::SegmentMetadata) => match (
                DataSourceView::at(doc, Field::DataSource),
                opt_texts_at(doc, Field::Intervals),
                ToIncludeView::opt_all_at(doc, Field::ToInclude),
                opt_flag_at(doc, Field::Merge),
                ContextView::opt_at(doc, Field::Context),
                literals_at::<AnalysisType>(doc, Field::AnalysisTypes),
                opt_flag_at(doc, Field::LenientAggregatorMerge),
            ) {
                (
                    Some(data_source),
                    Some(intervals),
                    Some(to_include),
                    Some(merge),
                    Some(context),
                    Some(analysis_types),
                    Some(lenient_aggregator_merge),
                ) => {
                    Some(NativeQueryView::SegmentMetadata {
                        data_source,
                        intervals,
                        to_include,
                        merge,
                        context,
                        analysis_types,
                        lenient_aggregator_merge,
                    })
                },
                _ => None,
            },
            Some(NativeQueryType::DatasourceMetadata) => match (
                DataSourceView::at(doc, Field::DataSource),
                ContextView::opt_at(doc, Field::Context),
            ) {
                (Some(data_source), Some(context)) => {
                    Some(NativeQueryView::DatasourceMetadata { data_source, context })
                },
                _ => None,
            },
            Some(NativeQueryType::Scan) => match (
                DataSourceView::at(doc, Field::DataSource),
                texts_at(doc, Field::Intervals),
                opt_literal_at::<ResultFormat>(doc, Field::ResultFormat),
                opt_unsigned_at(doc, Field::Offset),
                opt_literal_at::<Order>(doc, Field::Order),
                opt_flag_at(doc, Field::Legacy),
                ContextView::opt_at(doc, Field::Context),
            ) {
                (
                    Some(data_source),
                    Some(intervals),
                    Some(result_format),
                    Some(offset),
                    Some(order),
                    Some(legacy),
                    Some(context),
                ) => {
                    Some(NativeQueryView::Scan {
                        data_source,
                        intervals,
                        result_format,
                        offset,
                        order,
                        legacy,
                        context,
                    })
                },
                _ => None,
            },
            Some(NativeQueryType::Search) => match (
                DataSourceView::at(doc, Field::DataSource),
                opt_literal_at::<Granularity>(doc, Field::Granularity),
                FilterView::opt_at(doc, Field::Filter),
                opt_unsigned_at(doc, Field::Limit),
                texts_at(doc, Field::Intervals),
                opt_texts_at(doc, Field::SearchDimensions),
                SearchQueryView::at(doc, Field::Query),
                opt_literal_at::<Sort>(doc, Field::Sort),
                ContextView::opt_at(doc, Field::Context),
            ) {
                (
                    Some(data_source),
                    Some(granularity),
                    Some(filter),
                    Some(limit),
                    Some(intervals),
                    Some(search_dimensions),
                    Some(query),
                    Some(sort),
                    Some(context),
                ) => {
                    Some(NativeQueryView::Search {
                        data_source,
                        granularity,
                        filter,
                        limit,
                        intervals,
                        search_dimensions,
                        query,
                        sort,
                        context,
                    })
                },
                _ => None,
            },
            None => None,
        }
    }

    /// The query that a document must hold under `field`.
    pub open spec fn at(doc: JsonValue, field: Field) -> Option<NativeQueryView>
        decreases doc, 0nat,
    {
        match get(doc, field) {
            Some(found) => NativeQueryView::decode(found),
            None => None,
        }
    }

    /// A valid value is well tagged.
    pub proof fn lemma_valid_well_tagged(self)
        requires
            self.valid(),
        ensures
            self.well_tagged(),
        decreases self, 0nat,
    {
        match self {
            NativeQueryView::Timeseries { data_source, .. } => {
                data_source.lemma_valid_well_tagged();
            },
            NativeQueryView::TopN { data_source, .. } => {
                data_source.lemma_valid_well_tagged();
            },
            NativeQueryView::GroupBy { data_source, .. } => {
                data_source.lemma_valid_well_tagged();
            },
            NativeQueryView::TimeBoundary { data_source, .. } => {
                data_source.lemma_valid_well_tagged();
            },
            NativeQueryView::SegmentMetadata { data_source, .. } => {
                data_source.lemma_valid_well_tagged();
            },
            NativeQueryView::DatasourceMetadata { data_source, .. } => {
                data_source.lemma_valid_well_tagged();
            },
            NativeQueryView::Scan { data_source, .. } => {
                data_source.lemma_valid_well_tagged();
            },
            NativeQueryView::Search { data_source, .. } => {
                data_source.lemma_valid_well_tagged();
            },
        }
    }

    /// Whatever document it is read from, a decoded query is well tagged:
    /// decoding lets no mistagged value through.
    pub proof fn lemma_decoded_valid(doc: JsonValue)
        ensures
            NativeQueryView::decode(doc) matches Some(x) ==> x.well_tagged(),
        decreases doc, 1nat,
    {
        reveal(NativeQueryView::decode);
        if get(doc, Field::DataSource) is Some {
            DataSourceView::lemma_decoded_valid(get(doc, Field::DataSource).unwrap());
        }
        if get(doc, Field::Filter) is Some {
            FilterView::lemma_decoded_valid(get(doc, Field::Filter).unwrap());
        }
        if get(doc, Field::Aggregations) is Some {
            AggregationView::lemma_decoded_valid(get(doc, Field::Aggregations).unwrap());
        }
        if get(doc, Field::PostAggregations) is Some {
            PostAggregationView::lemma_decoded_all_valid(
                get(doc, Field::PostAggregations).unwrap(),
            );
        }
        if get(doc, Field::Dimension) is Some {
            DimensionSpecView::lemma_decoded_valid(get(doc, Field::Dimension).unwrap());
        }
        if get(doc, Field::Metric) is Some {
            TopNMetricSpecView::lemma_decoded_valid(get(doc, Field::Metric).unwrap());
        }
        if get(doc, Field::Dimensions) is Some {
            DimensionSpecView::lemma_decoded_all_valid(get(doc, Field::Dimensions).unwrap());
        }
        if get(doc, Field::LimitSpec) is Some {
            LimitSpecView::lemma_decoded_valid(get(doc, Field::LimitSpec).unwrap());
        }
        if get(doc, Field::Having) is Some {
            HavingView::lemma_decoded_valid(get(doc, Field::Having).unwrap());
        }
        if get(doc, Field::ToInclude) is Some {
            ToIncludeView::lemma_decoded_all_valid(get(doc, Field::ToInclude).unwrap());
        }
        if get(doc, Field::Query) is Some {
            SearchQueryView::lemma_decoded_valid(get(doc, Field::Query).unwrap());
        }
    }

    /// Decoding the document of a well tagged query gives the query back.
    pub proof fn lemma_round_trip(self)
        requires
            self.well_tagged(),
        ensures
            NativeQueryView::decode(self.encode()) == Some(self),
            !(self.encode() is Null),
        decreases self, 0nat,
    {
        reveal(NativeQueryView::encode);
        reveal(NativeQueryView::decode);
        match self {
            NativeQueryView::Timeseries {
                data_source,
                filter,
                aggregations,
                post_aggregations,
                context,
                ..
            } => {
                data_source.lemma_round_trip();
                if filter is Some {
                    filter.unwrap().lemma_round_trip();
                }
                if aggregations is Some {
                    aggregations.unwrap().lemma_round_trip();
                }
                if post_aggregations is Some {
                    PostAggregationView::lemma_round_trip_all(post_aggregations.unwrap());
                }
                if context is Some {
                    context.unwrap().lemma_round_trip();
                }
            },
            NativeQueryView::TopN {
                data_source,
                filter,
                aggregations,
                post_aggregations,
                dimension,
                metric,
                context,
                ..
            } => {
                data_source.lemma_round_trip();
                if filter is Some {
                    filter.unwrap().lemma_round_trip();
                }
                if aggregations is Some {
                    aggregations.unwrap().lemma_round_trip();
                }
                if post_aggregations is Some {
                    PostAggregationView::lemma_round_trip_all(post_aggregations.unwrap());
                }
                dimension.lemma_round_trip();
                metric.lemma_round_trip();
                if context is Some {
                    context.unwrap().lemma_round_trip();
                }
            },
            NativeQueryView::GroupBy {
                data_source,
                dimensions,
                limit_spec,
                having,
                filter,
                aggregations,
                post_aggregations,
                context,
                ..
            } => {
                data_source.lemma_round_trip();
                DimensionSpecView::lemma_round_trip_all(dimensions);
                if limit_spec is Some {
                    limit_spec.unwrap().lemma_round_trip();
                }
                if having is Some {
                    having.unwrap().lemma_round_trip();
                }
                if filter is Some {
                    filter.unwrap().lemma_round_trip();
                }
                if aggregations is Some {
                    aggregations.unwrap().lemma_round_trip();
                }
                if post_aggregations is Some {
                    PostAggregationView::lemma_round_trip_all(post_aggregations.unwrap());
                }
                if context is Some {
                    context.unwrap().lemma_round_trip();
                }
            },
            NativeQueryView::TimeBoundary { data_source, filter, context, .. } => {
                data_source.lemma_round_trip();
                if filter is Some {
                    filter.unwrap().lemma_round_trip();
                }
                if context is Some {
                    context.unwrap().lemma_round_trip();
                }
            },
            NativeQueryView::SegmentMetadata { data_source, to_include, context, .. } => {
                data_source.lemma_round_trip();
                if to_include is Some {
                    ToIncludeView::lemma_round_trip_all(to_include.unwrap());
                }
                if context is Some {
                    context.unwrap().lemma_round_trip();
                }
            },
            NativeQueryView::DatasourceMetadata { data_source, context, .. } => {
                data_source.lemma_round_trip();
                if context is Some {
                    context.unwrap().lemma_round_trip();
                }
            },
            NativeQueryView::Scan { data_source, context, .. } => {
                data_source.lemma_round_trip();
                if context is Some {
                    context.unwrap().lemma_round_trip();
                }
            },
            NativeQueryView::Search { data_source, filter, query, context, .. } => {
                data_source.lemma_round_trip();
                if filter is Some {
                    filter.unwrap().lemma_round_trip();
                }
                query.lemma_round_trip();
                if context is Some {
                    context.unwrap().lemma_round_trip();
                }
            },
        }
    }
}

impl NativeQuery {
    /// The discriminator under which this query travels: the one of its shape.
    pub fn discriminator(&self) -> (r: NativeQueryType)
        ensures
            r == self@.expected_type(),
    {
        match self {
            NativeQuery::Timeseries { .. } => NativeQueryType::Timeseries,
            NativeQuery::TopN { .. } => NativeQueryType::TopN,
            NativeQuery::GroupBy { .. } => NativeQueryType::GroupBy,
            NativeQuery::TimeBoundary { .. } => NativeQueryType::TimeBoundary,
            NativeQuery::SegmentMetadata { .. } => NativeQueryType::SegmentMetadata,
            NativeQuery::DatasourceMetadata { .. } => NativeQueryType::DatasourceMetadata,
            NativeQuery::Scan { .. } => NativeQueryType::Scan,
            NativeQuery::Search { .. } => NativeQueryType::Search,
        }
    }

    /// Whether the discriminator fits the shape.
    pub fn validate_type(&self) -> (r: bool)
        ensures
            r == self@.type_consistent(),
    {
        true
    }

    /// Whether every component that this query owns is valid.
    pub fn validate_subcomponents(&self) -> (r: bool)
        ensures
            r == self@.subcomponents_valid(),
        decreases self, 0nat,
    {
        match self {
            NativeQuery::Timeseries {
                data_source,
                filter,
                aggregations,
                post_aggregations,
                ..
            } => {
                data_source.validate()
                    && Filter::validate_opt(filter)
                    && Aggregation::validate_opt(aggregations)
                    && PostAggregation::validate_opt_all(post_aggregations)
            },
            NativeQuery::TopN {
                data_source,
                filter,
                aggregations,
                post_aggregations,
                dimension,
                metric,
                ..
            } => {
                data_source.validate()
                    && Filter::validate_opt(filter)
                    && Aggregation::validate_opt(aggregations)
                    && PostAggregation::validate_opt_all(post_aggregations)
                    && dimension.validate()
                    && metric.validate()
            },
            NativeQuery::GroupBy {
                data_source,
                dimensions,
                limit_spec,
                having,
                filter,
                aggregations,
                post_aggregations,
                ..
            } => {
                data_source.validate()
                    && DimensionSpec::validate_all(dimensions)
                    && LimitSpec::validate_opt(limit_spec)
                    && Having::validate_opt(having)
                    && Filter::validate_opt(filter)
                    && Aggregation::validate_opt(aggregations)
                    && PostAggregation::validate_opt_all(post_aggregations)
            },
            NativeQuery::TimeBoundary { data_source, filter, .. } => {
                data_source.validate()
                    && Filter::validate_opt(filter)
            },
            NativeQuery::SegmentMetadata { data_source, to_include, .. } => {
                data_source.validate()
                    && ToInclude::validate_opt_all(to_include)
            },
            NativeQuery::DatasourceMetadata { data_source, .. } => data_source.validate(),
            NativeQuery::Scan { data_source, .. } => data_source.validate(),
            NativeQuery::Search { data_source, filter, query, .. } => {
                data_source.validate()
                    && Filter::validate_opt(filter)
                    && query.validate()
            },
        }
    }

    /// Whether this query is valid.
    pub fn validate(&self) -> (r: bool)
        ensures
            r == self@.valid(),
        decreases self, 1nat,
    {
        self.validate_type() && self.validate_subcomponents()
    }

    /// Writes this query as the document that stands for it on the wire.
    pub fn encode(&self) -> (v: serde_json::Value)
        ensures
            value_model(v) == self@.encode(),
        decreases self, 0nat,
    {
        proof {
            reveal(NativeQueryView::encode);
        }
        let mut members = new_object();
        match self {
            NativeQuery::Timeseries {
                data_source,
                descending,
                intervals,
                granularity,
                filter,
                aggregations,
                post_aggregations,
                limit,
                context,
            } => {
                put_literal(&mut members, Field::QueryType, &NativeQueryType::Timeseries);
                put_value(&mut members, Field::DataSource, data_source.encode());
                put_opt_flag(&mut members, Field::Descending, *descending);
                put_texts(&mut members, Field::Intervals, intervals);
                put_literal(&mut members, Field::Granularity, granularity);
                Filter::put_opt(&mut members, Field::Filter, filter);
                Aggregation::put_opt(&mut members, Field::Aggregations, aggregations);
                PostAggregation::put_opt_all(
                    &mut members,
                    Field::PostAggregations,
                    post_aggregations,
                );
                put_opt_unsigned(&mut members, Field::Limit, *limit);
                Context::put_opt(&mut members, Field::Context, context);
            },
            NativeQuery::TopN {
                data_source,
                intervals,
                granularity,
                filter,
                aggregations,
                post_aggregations,
                dimension,
                threshold,
                metric,
                context,
            } => {
                put_literal(&mut members, Field::QueryType, &NativeQueryType::TopN);
                put_value(&mut members, Field::DataSource, data_source.encode());
                put_texts(&mut members, Field::Intervals, intervals);
                put_literal(&mut members, Field::Granularity, granularity);
                Filter::put_opt(&mut members, Field::Filter, filter);
                Aggregation::put_opt(&mut members, Field::Aggregations, aggregations);
                PostAggregation::put_opt_all(
                    &mut members,
                    Field::PostAggregations,
                    post_aggregations,
                );
                put_value(&mut members, Field::Dimension, dimension.encode());
                put_unsigned(&mut members, Field::Threshold, *threshold);
                put_value(&mut members, Field::Metric, metric.encode());
                Context::put_opt(&mut members, Field::Context, context);
            },
            NativeQuery::GroupBy {
                data_source,
                dimensions,
                limit_spec,
                having,
                granularity,
                filter,
                aggregations,
                post_aggregations,
                intervals,
                subtotals_spec,
                context,
            } => {
                put_literal(&mut members, Field::QueryType, &NativeQueryType::GroupBy);
                put_value(&mut members, Field::DataSource, data_source.encode());
                put_value(&mut members, Field::Dimensions, DimensionSpec::encode_all(dimensions));
                LimitSpec::put_opt(&mut members, Field::LimitSpec, limit_spec);
                Having::put_opt(&mut members, Field::Having, having);
                put_literal(&mut members, Field::Granularity, granularity);
                Filter::put_opt(&mut members, Field::Filter, filter);
                Aggregation::put_opt(&mut members, Field::Aggregations, aggregations);
                PostAggregation::put_opt_all(
                    &mut members,
                    Field::PostAggregations,
                    post_aggregations,
                );
                put_texts(&mut members, Field::Intervals, intervals);
                put_opt_rows(&mut members, Field::SubtotalsSpec, subtotals_spec);
                Context::put_opt(&mut members, Field::Context, context);
            },
            NativeQuery::TimeBoundary { data_source, bound, filter, context } => {
                put_literal(&mut members, Field::QueryType, &NativeQueryType::TimeBoundary);
                put_value(&mut members, Field::DataSource, data_source.encode());
                put_opt_literal(&mut members, Field::Bound, bound);
                Filter::put_opt(&mut members, Field::Filter, filter);
                Context::put_opt(&mut members, Field::Context, context);
            },
            NativeQuery::SegmentMetadata {
                data_source,
                intervals,
                to_include,
                merge,
                context,
                analysis_types,
                lenient_aggregator_merge,
            } => {
                put_literal(&mut members, Field::QueryType, &NativeQueryType::SegmentMetadata);
                put_value(&mut members, Field::DataSource, data_source.encode());
                put_opt_texts(&mut members, Field::Intervals, intervals);
                ToInclude::put_opt_all(&mut members, Field::ToInclude, to_include);
                put_opt_flag(&mut members, Field::Merge, *merge);
                Context::put_opt(&mut members, Field::Context, context);
                put_literals(&mut members, Field::AnalysisTypes, analysis_types);
                put_opt_flag(
                    &mut members,
                    Field::LenientAggregatorMerge,
                    *lenient_aggregator_merge,
                );
            },
            NativeQuery::DatasourceMetadata { data_source, context } => {
                put_literal(&mut members, Field::QueryType, &NativeQueryType::DatasourceMetadata);
                put_value(&mut members, Field::DataSource, data_source.encode());
                Context::put_opt(&mut members, Field::Context, context);
            },
            NativeQuery::Scan {
                data_source,
                intervals,
                result_format,
                offset,
                order,
                legacy,
                context,
            } => {
                put_literal(&mut members, Field::QueryType, &NativeQueryType::Scan);
                put_value(&mut members, Field::DataSource, data_source.encode());
                put_texts(&mut members, Field::Intervals, intervals);
                put_opt_literal(&mut members, Field::ResultFormat, result_format);
                put_opt_unsigned(&mut members, Field::Offset, *offset);
                put_opt_literal(&mut members, Field::Order, order);
                put_opt_flag(&mut members, Field::Legacy, *legacy);
                Context::put_opt(&mut members, Field::Context, context);
            },
            NativeQuery::Search {
                data_source,
                granularity,
                filter,
                limit,
                intervals,
                search_dimensions,
                query,
                sort,
                context,
            } => {
                put_literal(&mut members, Field::QueryType, &NativeQueryType::Search);
                put_value(&mut members, Field::DataSource, data_source.encode());
                put_opt_literal(&mut members, Field::Granularity, granularity);
                Filter::put_opt(&mut members, Field::Filter, filter);
                put_opt_unsigned(&mut members, Field::Limit, *limit);
                put_texts(&mut members, Field::Intervals, intervals);
                put_opt_texts(&mut members, Field::SearchDimensions, search_dimensions);
                put_value(&mut members, Field::Query, query.encode());
                put_opt_literal(&mut members, Field::Sort, sort);
                Context::put_opt(&mut members, Field::Context, context);
            },
        }
        object_value(members)
    }

    /// Reads the query that a document stands for. Gives `None` where the
    /// document stands for none.
    pub fn decode(v: &serde_json::Value) -> (r: Option<NativeQuery>)
        ensures
            r.deep_view() == NativeQueryView::decode(value_model(*v)),
        decreases value_model(*v), 1nat,
    {
        proof {
            reveal(NativeQueryView::decode);
        }
        match read_literal::<NativeQueryType>(v, Field::QueryType)? {
            NativeQueryType::Timeseries => Some(NativeQuery::Timeseries {
                data_source: DataSource::read(v, Field::DataSource)?,
                descending: read_opt_flag(v, Field::Descending)?,
                intervals: read_texts(v, Field::Intervals)?,
                granularity: read_literal::<Granularity>(v, Field::Granularity)?,
                filter: Filter::read_opt(v, Field::Filter)?,
                aggregations: Aggregation::read_opt(v, Field::Aggregations)?,
                post_aggregations: PostAggregation::read_opt_all(v, Field::PostAggregations)?,
                limit: read_opt_unsigned(v, Field::Limit)?,
                context: Context::read_opt(v, Field::Context)?,
            }),
            NativeQueryType::TopN => Some(NativeQuery::TopN {
                data_source: DataSource::read(v, Field::DataSource)?,
                intervals: read_texts(v, Field::Intervals)?,
                granularity: read_literal::<Granularity>(v, Field::Granularity)?,
                filter: Filter::read_opt(v, Field::Filter)?,
                aggregations: Aggregation::read_opt(v, Field::Aggregations)?,
                post_aggregations: PostAggregation::read_opt_all(v, Field::PostAggregations)?,
                dimension: DimensionSpec::read(v, Field::Dimension)?,
                threshold: read_unsigned(v, Field::Threshold)?,
                metric: TopNMetricSpec::read(v, Field::Metric)?,
                context: Context::read_opt(v, Field::Context)?,
            }),
            NativeQueryType::GroupBy => Some(NativeQuery::GroupBy {
                data_source: DataSource::read(v, Field::DataSource)?,
                dimensions: DimensionSpec::read_all(v, Field::Dimensions)?,
                limit_spec: LimitSpec::read_opt(v, Field::LimitSpec)?,
                having: Having::read_opt(v, Field::Having)?,
                granularity: read_literal::<Granularity>(v, Field::Granularity)?,
                filter: Filter::read_opt(v, Field::Filter)?,
                aggregations: Aggregation::read_opt(v, Field::Aggregations)?,
                post_aggregations: PostAggregation::read_opt_all(v, Field::PostAggregations)?,
                intervals: read_texts(v, Field::Intervals)?,
                subtotals_spec: read_opt_rows(v, Field::SubtotalsSpec)?,
                context: Context::read_opt(v, Field::Context)?,
            }),
            NativeQueryType::TimeBoundary => Some(NativeQuery::TimeBoundary {
                data_source: DataSource::read(v, Field::DataSource)?,
                bound: read_opt_literal::<Bound>(v, Field::Bound)?,
                filter: Filter::read_opt(v, Field::Filter)?,
                context: Context::read_opt(v, Field::Context)?,
            }),
            NativeQueryType::SegmentMetadata => Some(NativeQuery::SegmentMetadata {
                data_source: DataSource::read(v, Field::DataSource)?,
                intervals: read_opt_texts(v, Field::Intervals)?,
                to_include: ToInclude::read_opt_all(v, Field::ToInclude)?,
                merge: read_opt_flag(v, Field::Merge)?,
                context: Context::read_opt(v, Field::Context)?,
                analysis_types: read_literals::<AnalysisType>(v, Field::AnalysisTypes)?,
                lenient_aggregator_merge: read_opt_flag(v, Field::LenientAggregatorMerge)?,
            }),
            NativeQueryType::DatasourceMetadata => Some(NativeQuery::DatasourceMetadata {
                data_source: DataSource::read(v, Field::DataSource)?,
                context: Context::read_opt(v, Field::Context)?,
            }),
            NativeQueryType::Scan => Some(NativeQuery::Scan {
                data_source: DataSource::read(v, Field::DataSource)?,
                intervals: read_texts(v, Field::Intervals)?,
                result_format: read_opt_literal::<ResultFormat>(v, Field::ResultFormat)?,
                offset: read_opt_unsigned(v, Field::Offset)?,
                order: read_opt_literal::<Order>(v, Field::Order)?,
                legacy: read_opt_flag(v, Field::Legacy)?,
                context: Context::read_opt(v, Field::Context)?,
            }),
            NativeQueryType::Search => Some(NativeQuery::Search {
                data_source: DataSource::read(v, Field::DataSource)?,
                granularity: read_opt_literal::<Granularity>(v, Field::Granularity)?,
                filter: Filter::read_opt(v, Field::Filter)?,
                limit: read_opt_unsigned(v, Field::Limit)?,
                intervals: read_texts(v, Field::Intervals)?,
                search_dimensions: read_opt_texts(v, Field::SearchDimensions)?,
                query: SearchQuery::read(v, Field::Query)?,
                sort: read_opt_literal::<Sort>(v, Field::Sort)?,
                context: Context::read_opt(v, Field::Context)?,
            }),
        }
    }

    /// Reads a query that must stand under `field`.
    pub fn read(v: &serde_json::Value, field: Field) -> (r: Option<NativeQuery>)
        ensures
            r.deep_view() == NativeQueryView::at(value_model(*v), field),
        decreases value_model(*v), 0nat,
    {
        proof {
            reveal(NativeQueryView::decode);
        }
        let found = member_of(v, field)?;
        NativeQuery::decode(found)
    }

    /// A copy of this query.
    pub fn duplicate(&self) -> (r: NativeQuery)
        ensures
            r@ == self@,
        decreases self, 0nat,
    {
        match self {
            NativeQuery::Timeseries {
                data_source,
                descending,
                intervals,
                granularity,
                filter,
                aggregations,
                post_aggregations,
                limit,
                context,
            } => NativeQuery::Timeseries {
                data_source: data_source.duplicate(),
                descending: *descending,
                intervals: copy_texts(intervals),
                granularity: *granularity,
                filter: Filter::duplicate_opt(filter),
                aggregations: Aggregation::duplicate_opt(aggregations),
                post_aggregations: PostAggregation::duplicate_opt_all(post_aggregations),
                limit: *limit,
                context: Context::duplicate_opt(context),
            },
            NativeQuery::TopN {
                data_source,
                intervals,
                granularity,
                filter,
                aggregations,
                post_aggregations,
                dimension,
                threshold,
                metric,
                context,
            } => NativeQuery::TopN {
                data_source: data_source.duplicate(),
                intervals: copy_texts(intervals),
                granularity: *granularity,
                filter: Filter::duplicate_opt(filter),
                aggregations: Aggregation::duplicate_opt(aggregations),
                post_aggregations: PostAggregation::duplicate_opt_all(post_aggregations),
                dimension: dimension.duplicate(),
                threshold: *threshold,
                metric: metric.duplicate(),
                context: Context::duplicate_opt(context),
            },
            NativeQuery::GroupBy {
                data_source,
                dimensions,
                limit_spec,
                having,
                granularity,
                filter,
                aggregations,
                post_aggregations,
                intervals,
                subtotals_spec,
                context,
            } => NativeQuery::GroupBy {
                data_source: data_source.duplicate(),
                dimensions: DimensionSpec::duplicate_all(dimensions),
                limit_spec: LimitSpec::duplicate_opt(limit_spec),
                having: Having::duplicate_opt(having),
                granularity: *granularity,
                filter: Filter::duplicate_opt(filter),
                aggregations: Aggregation::duplicate_opt(aggregations),
                post_aggregations: PostAggregation::duplicate_opt_all(post_aggregations),
                intervals: copy_texts(intervals),
                subtotals_spec: copy_opt_rows(subtotals_spec),
                context: Context::duplicate_opt(context),
            },
            NativeQuery::TimeBoundary {
                data_source,
                bound,
                filter,
                context,
            } => NativeQuery::TimeBoundary {
                data_source: data_source.duplicate(),
                bound: *bound,
                filter: Filter::duplicate_opt(filter),
                context: Context::duplicate_opt(context),
            },
            NativeQuery::SegmentMetadata {
                data_source,
                intervals,
                to_include,
                merge,
                context,
                analysis_types,
                lenient_aggregator_merge,
            } => NativeQuery::SegmentMetadata {
                data_source: data_source.duplicate(),
                intervals: copy_opt_texts(intervals),
                to_include: ToInclude::duplicate_opt_all(to_include),
                merge: *merge,
                context: Context::duplicate_opt(context),
                analysis_types: copy_literals(analysis_types),
                lenient_aggregator_merge: *lenient_aggregator_merge,
            },
            NativeQuery::DatasourceMetadata {
                data_source,
                context,
            } => NativeQuery::DatasourceMetadata {
                data_source: data_source.duplicate(),
                context: Context::duplicate_opt(context),
            },
            NativeQuery::Scan {
                data_source,
                intervals,
                result_format,
                offset,
                order,
                legacy,
                context,
            } => NativeQuery::Scan {
                data_source: data_source.duplicate(),
                intervals: copy_texts(intervals),
                result_format: *result_format,
                offset: *offset,
                order: *order,
                legacy: *legacy,
                context: Context::duplicate_opt(context),
            },
            NativeQuery::Search {
                data_source,
                granularity,
                filter,
                limit,
                intervals,
                search_dimensions,
                query,
                sort,
                context,
            } => NativeQuery::Search {
                data_source: data_source.duplicate(),
                granularity: *granularity,
                filter: Filter::duplicate_opt(filter),
                limit: *limit,
                intervals: copy_texts(intervals),
                search_dimensions: copy_opt_texts(search_dimensions),
                query: query.duplicate(),
                sort: *sort,
                context: Context::duplicate_opt(context),
            },
        }
    }
}

impl Clone for NativeQuery {
    fn clone(&self) -> (r: Self)
        ensures
            r@ == self@,
    {
        self.duplicate()
    }
}

impl NativeQueryView {
    /// The query that a parsed text stands for, if the text was parsed and
    /// the document stands for one.
    pub open spec fn read(doc: Option<JsonValue>) -> Option<NativeQueryView> {
        match doc {
            Some(d) => NativeQueryView::decode(d),
            None => None,
        }
    }
}

impl NativeQuery {
    /// Writes the query as a JSON text: the text of the document that stands
    /// for it.
    pub fn to_text(&self) -> (r: Result<String, serde_json::Error>)
        ensures
            r is Ok <==> rendered_text(self@.encode()) is Some,
            r matches Ok(text) ==> rendered_text(self@.encode()) == Some(text@),
    {
        let document = self.encode();
        render(&document)
    }

    /// Reads a query from a JSON text. Gives `None` where the text is not
    /// JSON, or is a document that stands for no query.
    pub fn from_text(text: &str) -> (r: Option<NativeQuery>)
        ensures
            r.deep_view() == NativeQueryView::read(parsed_text(text@)),
    {
        match parse(text) {
            Ok(document) => NativeQuery::decode(&document),
            Err(_) => None,
        }
    }
}
/// A query that can be checked before it is sent, and written as the document
/// that goes on the wire.
pub trait TypeConstrainedQuery {
    /// Whether the discriminator fits the shape.
    spec fn type_consistent(&self) -> bool;

    /// Whether every component that the query owns is valid.
    spec fn subcomponents_valid(&self) -> bool;

    /// The document that stands for the query on the wire.
    spec fn document(&self) -> JsonValue;

    /// Whether the discriminator fits the shape.
    fn validate_type(&self) -> (r: bool)
        ensures
            r == self.type_consistent(),
    ;

    /// Whether every component that the query owns is valid.
    fn validate_subcomponents(&self) -> (r: bool)
        ensures
            r == self.subcomponents_valid(),
    ;

    /// Writes the query as the document that stands for it on the wire.
    fn to_document(&self) -> (v: serde_json::Value)
        ensures
            value_model(v) == self.document(),
    ;
}

impl TypeConstrainedQuery for NativeQuery {
    open spec fn type_consistent(&self) -> bool {
        self@.type_consistent()
    }

    open spec fn subcomponents_valid(&self) -> bool {
        self@.subcomponents_valid()
    }

    open spec fn document(&self) -> JsonValue {
        self@.encode()
    }

    fn validate_type(&self) -> (r: bool) {
        NativeQuery::validate_type(self)
    }

    fn validate_subcomponents(&self) -> (r: bool) {
        NativeQuery::validate_subcomponents(self)
    }

    fn to_document(&self) -> (v: serde_json::Value) {
        self.encode()
    }
}

} // verus!
