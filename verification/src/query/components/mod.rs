pub mod aggregation;
pub mod context;
pub mod datasource;
pub mod dimension;
pub mod extraction;
pub mod filter;
pub mod granularity;
pub mod having;
pub mod helpers;
pub mod limit;
pub mod searchquery;
pub mod toinclude;
pub mod topnmetric;
pub mod virtualcolumn;

pub use aggregation::{
    Aggregation, AggregationType, AggregationView, PostAggregation, PostAggregationType,
    PostAggregationView,
};
pub use context::{Context, ContextView};
pub use datasource::{DataSource, DataSourceType, DataSourceView};
pub use dimension::{DimensionSpec, DimensionSpecType, DimensionSpecView};
pub use extraction::{ExtractionFunction, ExtractionFunctionType, ExtractionFunctionView};
pub use filter::{Filter, FilterType, FilterView};
pub use granularity::{Granularity, GranularitySpec, GranularitySpecType, GranularitySpecView};
pub use having::{Having, HavingType, HavingView};
pub use helpers::{
    AnalysisType, Bound, Direction, Expression, Interval, Order, OrderByColumnSpec,
    OrderByColumnSpecView, OutputType, ResultFormat, Sort,
};
pub use limit::{LimitSpec, LimitSpecType, LimitSpecView};
pub use searchquery::{SearchQuery, SearchQueryType, SearchQueryView};
pub use toinclude::{ToInclude, ToIncludeType, ToIncludeView};
pub use topnmetric::{TopNMetricSpec, TopNMetricSpecType, TopNMetricSpecView};
pub use virtualcolumn::{VirtualColumn, VirtualColumnType, VirtualColumnView};
