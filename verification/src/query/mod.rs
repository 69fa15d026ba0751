pub mod components;
pub mod model;
pub mod number;
pub mod response;

pub use components::{
    Aggregation, AggregationType, AggregationView, AnalysisType, Bound, Context, ContextView,
    DataSource, DataSourceType, DataSourceView, DimensionSpec, DimensionSpecType,
    DimensionSpecView, Direction, Expression, ExtractionFunction, ExtractionFunctionType,
    ExtractionFunctionView, Filter, FilterType, FilterView, Granularity, GranularitySpec,
    GranularitySpecType, GranularitySpecView, Having, HavingType, HavingView, Interval, LimitSpec,
    LimitSpecType, LimitSpecView, Order, OrderByColumnSpec, OrderByColumnSpecView, OutputType,
    PostAggregation, PostAggregationType, PostAggregationView, ResultFormat, SearchQuery,
    SearchQueryType, SearchQueryView, Sort, ToInclude, ToIncludeType, ToIncludeView,
    TopNMetricSpec, TopNMetricSpecType, TopNMetricSpecView, VirtualColumn, VirtualColumnType,
    VirtualColumnView,
};
pub use model::{NativeQuery, NativeQueryType, NativeQueryView, TypeConstrainedQuery};
pub use number::{FloatingPointNumber, IntegerNumber};
pub use response::{DruidQueryResponse, DruidQueryResponseView};
