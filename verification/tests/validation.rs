use cathbad::query::{
    Aggregation, DataSource, DataSourceType, DimensionSpec, DimensionSpecType,
    ExtractionFunction, ExtractionFunctionType, Filter, FilterType, FloatingPointNumber, Having,
    HavingType, LimitSpec, LimitSpecType, NativeQuery, OutputType, PostAggregation, SearchQuery,
    SearchQueryType, ToInclude, ToIncludeType, TopNMetricSpec, TopNMetricSpecType, VirtualColumn,
    VirtualColumnType,
};

fn number(x: f64) -> FloatingPointNumber {
    FloatingPointNumber::new(serde_json::Number::from_f64(x).unwrap())
}

fn selector(tag: FilterType) -> Filter {
    Filter::Selector { type_: tag, dimension: "country".to_string(), value: "IT".to_string() }
}

#[test]
fn mistagged_having_fails_type_validation_whatever_it_holds() {
    for (aggregation, value) in [("rows", 0.0), ("", 1.5), ("sum", -3.0e9)] {
        let mistagged = Having::EqualTo {
            type_: HavingType::GreaterThan,
            aggregation: aggregation.to_string(),
            value: number(value),
        };
        assert!(!mistagged.validate_type());
        assert!(!mistagged.validate());
        let tagged = Having::EqualTo {
            type_: HavingType::EqualTo,
            aggregation: aggregation.to_string(),
            value: number(value),
        };
        assert!(tagged.validate_type());
        assert!(tagged.validate());
    }
}

#[test]
fn every_having_shape_checks_its_own_tag() {
    let tags = [
        HavingType::Filter,
        HavingType::EqualTo,
        HavingType::GreaterThan,
        HavingType::LessThan,
        HavingType::DimSelector,
        HavingType::And,
        HavingType::Or,
        HavingType::Not,
    ];
    for tag in tags {
        let less = Having::LessThan {
            type_: tag,
            aggregation: "a".to_string(),
            value: number(2.0),
        };
        assert_eq!(less.validate_type(), tag == HavingType::LessThan);
        let and = Having::And { type_: tag, having_specs: vec![] };
        assert_eq!(and.validate_type(), tag == HavingType::And);
        let not = Having::Not { type_: tag, having_specs: vec![] };
        assert_eq!(not.validate_type(), tag == HavingType::Not);
    }
}

#[test]
fn and_filter_with_one_invalid_leaf_is_invalid() {
    let filter = Filter::And {
        type_: FilterType::And,
        fields: vec![
            Box::new(selector(FilterType::Selector)),
            Box::new(selector(FilterType::Regex)),
            Box::new(Filter::True { type_: FilterType::True }),
        ],
    };
    assert!(filter.validate_type());
    assert!(!filter.validate_subcomponents());
    assert!(!filter.validate());
}

#[test]
fn and_filter_with_valid_leaves_is_valid() {
    let filter = Filter::And {
        type_: FilterType::And,
        fields: vec![
            Box::new(selector(FilterType::Selector)),
            Box::new(Filter::True { type_: FilterType::True }),
        ],
    };
    assert!(filter.validate());
    let empty = Filter::And { type_: FilterType::And, fields: vec![] };
    assert!(empty.validate());
    assert!(Filter::validate_all(&vec![]));
}

#[test]
fn invalid_leaf_is_found_at_any_depth() {
    let mut filter = selector(FilterType::In);
    for _ in 0..5 {
        filter = Filter::Not { type_: FilterType::Not, field: Box::new(filter) };
        filter = Filter::Or { type_: FilterType::Or, fields: vec![Box::new(filter)] };
    }
    assert!(filter.validate_type());
    assert!(!filter.validate());

    let mut filter = selector(FilterType::Selector);
    for _ in 0..5 {
        filter = Filter::Not { type_: FilterType::Not, field: Box::new(filter) };
        filter = Filter::Or { type_: FilterType::Or, fields: vec![Box::new(filter)] };
    }
    assert!(filter.validate());
}

#[test]
fn filter_validates_what_it_owns() {
    let query = SearchQuery::Contains {
        type_: SearchQueryType::Fragment,
        case_sensitive: true,
        value: "x".to_string(),
    };
    let filter = Filter::Search {
        type_: FilterType::Search,
        dimension: "page".to_string(),
        query,
        extraction_function: None,
    };
    assert!(filter.validate_type());
    assert!(!filter.validate());

    let filter = Filter::Like {
        type_: FilterType::Like,
        dimension: "page".to_string(),
        pattern: "a%".to_string(),
        escape: None,
        extraction_function: Some(ExtractionFunction::Strlen {
            type_: ExtractionFunctionType::Upper,
        }),
    };
    assert!(!filter.validate());

    let filter = Filter::Like {
        type_: FilterType::Like,
        dimension: "page".to_string(),
        pattern: "a%".to_string(),
        escape: None,
        extraction_function: Some(ExtractionFunction::Strlen {
            type_: ExtractionFunctionType::Strlen,
        }),
    };
    assert!(filter.validate());
    assert!(Filter::validate_opt(&None));
    assert!(Filter::validate_opt(&Some(filter)));
}

#[test]
fn cascade_validates_every_function() {
    let upper = || ExtractionFunction::Upper { type_: ExtractionFunctionType::Upper, locale: None };
    let bad = ExtractionFunction::Lower { type_: ExtractionFunctionType::Upper, locale: None };
    let cascade = ExtractionFunction::Cascade {
        type_: ExtractionFunctionType::Cascade,
        extraction_fns: vec![upper(), upper()],
    };
    assert!(cascade.validate());
    let cascade = ExtractionFunction::Cascade {
        type_: ExtractionFunctionType::Cascade,
        extraction_fns: vec![upper(), bad],
    };
    assert!(cascade.validate_type());
    assert!(!cascade.validate());
}

#[test]
fn dimension_validates_its_delegate() {
    let inner = |tag| DimensionSpec::Default {
        type_: tag,
        dimension: "city".to_string(),
        output_name: None,
        output_type: Some(OutputType::String),
    };
    let outer = |delegate| DimensionSpec::PrefixFiltered {
        type_: DimensionSpecType::PrefixFiltered,
        delegate: Box::new(delegate),
        prefix: "San".to_string(),
    };
    assert!(outer(inner(DimensionSpecType::Default)).validate());
    assert!(!outer(inner(DimensionSpecType::Extraction)).validate());
    assert!(!inner(DimensionSpecType::ListFiltered).validate_type());
}

#[test]
fn aggregation_validates_filter_and_inner_aggregation() {
    let count = Aggregation::Count { name: "rows".to_string() };
    assert!(count.validate_type());
    assert!(count.validate());
    let filtered = |tag| Aggregation::Filtered {
        filter: selector(tag),
        aggregator: Box::new(Aggregation::LongSum {
            name: "n".to_string(),
            field_name: "added".to_string(),
        }),
    };
    assert!(filtered(FilterType::Selector).validate());
    assert!(filtered(FilterType::Bound).validate_type());
    assert!(!filtered(FilterType::Bound).validate());
    let nested = Aggregation::Filtered {
        filter: selector(FilterType::Selector),
        aggregator: Box::new(filtered(FilterType::Like)),
    };
    assert!(!nested.validate());
}

#[test]
fn post_aggregation_is_always_well_typed() {
    let arithmetic = PostAggregation::Arithmetic {
        name: "ratio".to_string(),
        fn_: "/".to_string(),
        fields: vec!["a".to_string(), "b".to_string()],
        ordering: None,
    };
    assert!(arithmetic.validate_type());
    assert!(arithmetic.validate());
    assert!(PostAggregation::validate_opt_all(&None));
    assert!(PostAggregation::validate_opt_all(&Some(vec![arithmetic])));
}

#[test]
fn data_source_name_must_not_be_empty() {
    assert!(!DataSource::String(String::new()).validate_type());
    assert!(DataSource::String("a".to_string()).validate_type());
    assert!(DataSource::String("wikipedia".to_string()).validate());
}

#[test]
fn data_source_validates_inner_sources_and_queries() {
    let table = |tag| DataSource::Table { type_: tag, name: "t".to_string() };
    assert!(table(DataSourceType::Table).validate());
    assert!(!table(DataSourceType::Union).validate_type());
    let join = |left, right| DataSource::Join {
        type_: DataSourceType::Join,
        left: Box::new(left),
        right: Box::new(right),
        right_prefix: "r.".to_string(),
        condition: "a == \"r.a\"".to_string(),
        join_type: "INNER".to_string(),
    };
    assert!(join(table(DataSourceType::Table), DataSource::String("u".to_string())).validate());
    assert!(!join(table(DataSourceType::Table), DataSource::String(String::new())).validate());
    assert!(!join(table(DataSourceType::Inline), table(DataSourceType::Table)).validate());

    let inner = |name: &str| NativeQuery::DatasourceMetadata {
        data_source: DataSource::String(name.to_string()),
        context: None,
    };
    let over = |query| DataSource::Query { type_: DataSourceType::Query, query: Box::new(query) };
    assert!(over(inner("t")).validate());
    assert!(over(inner("")).validate_type());
    assert!(!over(inner("")).validate());

    let unnest = |tag| DataSource::Unnest {
        type_: DataSourceType::Unnest,
        base: Box::new(table(tag)),
        virtual_column: VirtualColumn {
            type_: VirtualColumnType::VirtualColumn,
            name: "v".to_string(),
            expression: "\"tags\"".to_string(),
            output_type: OutputType::String,
        },
        unnest_filter: None,
    };
    assert!(unnest(DataSourceType::Table).validate());
    assert!(!unnest(DataSourceType::Join).validate());
}

#[test]
fn group_by_validates_every_component_it_owns() {
    let make = |dimension_tag, having_tag, include_limit: bool| NativeQuery::GroupBy {
        data_source: DataSource::String("wikipedia".to_string()),
        dimensions: vec![
            DimensionSpec::Default {
                type_: DimensionSpecType::Default,
                dimension: "a".to_string(),
                output_name: None,
                output_type: None,
            },
            DimensionSpec::Default {
                type_: dimension_tag,
                dimension: "b".to_string(),
                output_name: None,
                output_type: None,
            },
        ],
        limit_spec: if include_limit {
            Some(LimitSpec {
                type_: LimitSpecType::Default,
                limit: Some(5),
                offset: None,
                columns: None,
            })
        } else {
            None
        },
        having: Some(Having::GreaterThan {
            type_: having_tag,
            aggregation: "rows".to_string(),
            value: number(10.0),
        }),
        granularity: cathbad::query::Granularity::All,
        filter: None,
        aggregations: Some(Aggregation::Count { name: "rows".to_string() }),
        post_aggregations: Some(vec![]),
        intervals: vec!["2020/2021".to_string()],
        subtotals_spec: None,
        context: None,
    };
    assert!(make(DimensionSpecType::Default, HavingType::GreaterThan, true).validate());
    assert!(make(DimensionSpecType::Default, HavingType::GreaterThan, false).validate());
    assert!(!make(DimensionSpecType::Extraction, HavingType::GreaterThan, true).validate());
    assert!(!make(DimensionSpecType::Default, HavingType::LessThan, true).validate());
}

#[test]
fn top_n_and_segment_metadata_validate_their_components() {
    let top_n = |metric_tag| NativeQuery::TopN {
        data_source: DataSource::String("wikipedia".to_string()),
        intervals: vec![],
        granularity: cathbad::query::Granularity::Day,
        filter: None,
        aggregations: None,
        post_aggregations: None,
        dimension: DimensionSpec::Default {
            type_: DimensionSpecType::Default,
            dimension: "page".to_string(),
            output_name: None,
            output_type: None,
        },
        threshold: 3,
        metric: TopNMetricSpec::Numeric { type_: metric_tag, metric: "edits".to_string() },
        context: None,
    };
    assert!(top_n(TopNMetricSpecType::Numeric).validate());
    assert!(!top_n(TopNMetricSpecType::Dimension).validate());

    let metadata = |tag| NativeQuery::SegmentMetadata {
        data_source: DataSource::String("wikipedia".to_string()),
        intervals: None,
        to_include: Some(vec![
            ToInclude::All { type_: ToIncludeType::All },
            ToInclude::List { type_: tag, columns: vec!["a".to_string()] },
        ]),
        merge: None,
        context: None,
        analysis_types: vec![],
        lenient_aggregator_merge: None,
    };
    assert!(metadata(ToIncludeType::List).validate());
    assert!(!metadata(ToIncludeType::Nothing).validate());
}
