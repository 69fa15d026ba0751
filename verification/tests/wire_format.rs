use cathbad::query::{
    Aggregation, AnalysisType, Bound, Context, DataSource, DataSourceType, DimensionSpec,
    DimensionSpecType, Direction, ExtractionFunction, ExtractionFunctionType, Filter, FilterType,
    FloatingPointNumber, Granularity, GranularitySpec, GranularitySpecType, Having, HavingType,
    LimitSpec, LimitSpecType, NativeQuery, Order, OrderByColumnSpec, OutputType, PostAggregation,
    ResultFormat, SearchQuery, SearchQueryType, Sort, ToInclude, ToIncludeType, TopNMetricSpec,
    TopNMetricSpecType, VirtualColumn, VirtualColumnType,
};
use cathbad::literal::{literal_value, value_literal};
use cathbad::query::ExtractionFunctionType as T;
use cathbad::wire::Field;

fn text(v: &serde_json::Value) -> String {
    serde_json::to_string(v).unwrap()
}

fn document(text: &str) -> serde_json::Value {
    serde_json::from_str(text).unwrap()
}

fn number(x: f64) -> FloatingPointNumber {
    FloatingPointNumber::new(serde_json::Number::from_f64(x).unwrap())
}

fn selector() -> Filter {
    Filter::Selector {
        type_: FilterType::Selector,
        dimension: "country".to_string(),
        value: "IT".to_string(),
    }
}

fn bound_filter() -> Filter {
    Filter::Bound {
        type_: FilterType::Bound,
        dimension: "age".to_string(),
        lower: Some("21".to_string()),
        upper: None,
        lower_strict: Some(true),
        upper_strict: None,
        ordering: Some(Sort::Numeric),
        extraction_function: Some(ExtractionFunction::Substring {
            type_: ExtractionFunctionType::Substring,
            index: 1,
            length: Some(4),
        }),
    }
}

#[test]
fn selector_filter_is_a_flat_object_with_a_type_member() {
    assert_eq!(
        text(&selector().encode()),
        "{\"dimension\":\"country\",\"type\":\"selector\",\"value\":\"IT\"}"
    );
}

#[test]
fn absent_members_are_left_out() {
    assert_eq!(
        text(&bound_filter().encode()),
        "{\"dimension\":\"age\",\"extractionFunction\":{\"index\":1,\"length\":4,\"type\":\"Substring\"},\"lower\":\"21\",\"lowerStrict\":true,\"ordering\":\"numeric\",\"type\":\"bound\"}"
    );
}

#[test]
fn filter_literals_are_in_snake_case() {
    let filter = Filter::ColumnComparison {
        type_: FilterType::ColumnComparison,
        dimensions: vec!["a".to_string(), "b".to_string()],
    };
    assert_eq!(
        text(&filter.encode()),
        "{\"dimensions\":[\"a\",\"b\"],\"type\":\"column_comparison\"}",
    );
}

#[test]
fn arithmetic_operator_travels_as_fn() {
    let post = PostAggregation::Arithmetic {
        name: "ratio".to_string(),
        fn_: "/".to_string(),
        fields: vec!["a".to_string(), "b".to_string()],
        ordering: None,
    };
    assert_eq!(
        text(&post.encode()),
        "{\"fields\":[\"a\",\"b\"],\"fn\":\"/\",\"name\":\"ratio\",\"type\":\"arithmetic\"}"
    );
    assert_eq!(PostAggregation::decode(&post.encode()), Some(post));
}

#[test]
fn bare_data_source_is_a_json_string() {
    let source = DataSource::String("wikipedia".to_string());
    assert_eq!(text(&source.encode()), "\"wikipedia\"");
    assert_eq!(DataSource::decode(&document("\"wikipedia\"")), Some(source));
    assert_eq!(
        DataSource::decode(&document("\"\"")),
        Some(DataSource::String(String::new()))
    );
}

#[test]
fn unknown_discriminator_is_refused() {
    assert_eq!(Filter::decode(&document("{\"type\":\"bogus\"}")), None);
    assert_eq!(
        Filter::decode(&document("{\"type\":\"Selector\",\"dimension\":\"a\",\"value\":\"b\"}")),
        None,
    );
    assert_eq!(Having::decode(&document("{\"type\":\"between\"}")), None);
    assert_eq!(
        NativeQuery::decode(&document("{\"queryType\":\"sql\",\"dataSource\":\"t\"}")),
        None,
    );
    assert_eq!(
        Aggregation::decode(
            &document("{\"type\":\"stringFirst\",\"name\":\"n\",\"fieldName\":\"f\"}"),
        ),
        None,
    );
    assert_eq!(
        PostAggregation::decode(&document("{\"type\":\"constant\",\"name\":\"one\",\"value\":1}")),
        None,
    );
    assert_eq!(value_literal::<Granularity>(&document("\"fortnight\"")), None);
    assert_eq!(
        value_literal::<Granularity>(&document("\"fifteen_minute\"")),
        Some(Granularity::FifteenMinute),
    );
    assert_eq!(value_literal::<Granularity>(&document("15")), None);
    assert_eq!(
        serde_json::to_string(&literal_value(&Granularity::ThirtyMinute)).unwrap(),
        "\"thirty_minute\"",
    );
}

#[test]
fn missing_or_mistyped_members_are_refused() {
    assert_eq!(Filter::decode(&document("{\"type\":\"selector\",\"dimension\":\"a\"}")), None);
    assert_eq!(
        Filter::decode(&document("{\"type\":\"selector\",\"dimension\":\"a\",\"value\":7}")),
        None,
    );
    assert_eq!(
        Filter::decode(&document("{\"type\":\"selector\",\"dimension\":\"a\",\"value\":null}")),
        None,
    );
    assert_eq!(Filter::decode(&document("{\"dimension\":\"a\",\"value\":\"b\"}")), None);
    assert_eq!(Filter::decode(&document("[\"selector\"]")), None);
    assert_eq!(Filter::decode(&document("\"selector\"")), None);
    assert_eq!(Filter::decode(&document("{\"type\":\"and\",\"fields\":{}}")), None);
    assert_eq!(
        Filter::decode(
            &document("{\"type\":\"and\",\"fields\":[{\"type\":\"true\"},{\"type\":\"nope\"}]}"),
        ),
        None,
    );
    assert_eq!(
        Filter::decode(
            &document("{\"type\":\"bound\",\"dimension\":\"a\",\"lowerStrict\":\"yes\"}"),
        ),
        None,
    );
    assert_eq!(
        ExtractionFunction::decode(&document("{\"type\":\"Bucket\",\"size\":-1,\"offset\":0}")),
        None
    );
    assert_eq!(
        ExtractionFunction::decode(&document("{\"type\":\"Bucket\",\"size\":1.5,\"offset\":0}")),
        None
    );
}

#[test]
fn null_and_unknown_members_are_passed_over() {
    let decoded = Filter::decode(&document(
        "{\"type\":\"bound\",\"dimension\":\"age\",\"lower\":null,\"upper\":\"65\",\"comment\":\"hi\",\"extractionFunction\":null}",
    ));
    assert_eq!(
        decoded,
        Some(Filter::Bound {
            type_: FilterType::Bound,
            dimension: "age".to_string(),
            lower: None,
            upper: Some("65".to_string()),
            lower_strict: None,
            upper_strict: None,
            ordering: None,
            extraction_function: None,
        })
    );
}

#[test]
fn decoding_yields_tag_consistent_values() {
    let decoded = Having::decode(&document(
        "{\"type\":\"greaterThan\",\"aggregation\":\"rows\",\"value\":2.5}",
    ))
    .unwrap();
    assert!(decoded.validate());
    assert_eq!(
        decoded,
        Having::GreaterThan {
            type_: HavingType::GreaterThan,
            aggregation: "rows".to_string(),
            value: number(2.5),
        }
    );
}

#[test]
fn mistagged_value_does_not_come_back_as_itself() {
    let mistagged = Having::EqualTo {
        type_: HavingType::GreaterThan,
        aggregation: "rows".to_string(),
        value: number(2.5),
    };
    let decoded = Having::decode(&mistagged.encode()).unwrap();
    assert_ne!(decoded, mistagged);
}

#[test]
fn numbers_keep_their_value() {
    for x in [0.0, 1.5, -2.25, 1.0e300, 3.0] {
        let having = Having::LessThan {
            type_: HavingType::LessThan,
            aggregation: "a".to_string(),
            value: number(x),
        };
        let wire = text(&having.encode());
        let back = Having::decode(&document(&wire)).unwrap();
        assert_eq!(back, having);
        match back {
            Having::LessThan { value, .. } => assert_eq!(value.number.as_f64(), Some(x)),
            _ => unreachable!(),
        }
    }
    let whole = Having::decode(&document("{\"type\":\"equalTo\",\"aggregation\":\"a\",\"value\":7}")).unwrap();
    assert_eq!(text(&whole.encode()), "{\"aggregation\":\"a\",\"type\":\"equalTo\",\"value\":7}");
    assert_eq!(number(1.5).clone(), number(1.5));
    assert_eq!(text(&number(1.5).encode()), "1.5");
    assert_eq!(FloatingPointNumber::decode(&document("\"1.5\"")), None);
}

#[test]
fn integers_keep_their_value() {
    for n in [0u64, 1, 4294967296, u64::MAX] {
        let function = ExtractionFunction::Bucket {
            type_: ExtractionFunctionType::Bucket,
            size: n,
            offset: 0,
        };
        let back = ExtractionFunction::decode(&document(&text(&function.encode()))).unwrap();
        assert_eq!(back, function);
    }
    assert_eq!(
        text(
            &ExtractionFunction::Bucket { type_: ExtractionFunctionType::Bucket, size: 5, offset: 2 }.encode(),
        ),
        "{\"offset\":2,\"size\":5,\"type\":\"Bucket\"}"
    );
}

fn round_trip_filter(filter: Filter) {
    assert!(filter.validate());
    let back = Filter::decode(&document(&text(&filter.encode()))).unwrap();
    assert_eq!(back, filter);
}

#[test]
fn every_filter_shape_comes_back() {
    let s = |x: &str| x.to_string();
    let ef = || ExtractionFunction::Upper {
        type_: ExtractionFunctionType::Upper,
        locale: Some(s("en")),
    };
    round_trip_filter(selector());
    round_trip_filter(
        Filter::ColumnComparison {
            type_: FilterType::ColumnComparison,
            dimensions: vec![s("a"), s("b")],
        },
    );
    round_trip_filter(
        Filter::Regex { type_: FilterType::Regex, dimension: s("d"), pattern: s("^x.*\\d$") },
    );
    round_trip_filter(
        Filter::And {
            type_: FilterType::And,
            fields: vec![Box::new(selector()), Box::new(bound_filter())],
        },
    );
    round_trip_filter(Filter::And { type_: FilterType::And, fields: vec![] });
    round_trip_filter(Filter::Or { type_: FilterType::Or, fields: vec![Box::new(selector())] });
    round_trip_filter(Filter::Not { type_: FilterType::Not, field: Box::new(selector()) });
    round_trip_filter(
        Filter::Javascript {
            type_: FilterType::Javascript,
            dimension: s("d"),
            function: s("function(x) { return x == \"a\" }"),
        },
    );
    round_trip_filter(Filter::Search {
        type_: FilterType::Search,
        dimension: s("d"),
        query: SearchQuery::Fragment {
            type_: SearchQueryType::Fragment,
            case_sensitive: false,
            values: vec![s("a"), s("")],
        },
        extraction_function: Some(ef()),
    });
    round_trip_filter(Filter::In { type_: FilterType::In, dimension: s("d"), values: vec![] });
    round_trip_filter(
        Filter::Like {
            type_: FilterType::Like,
            dimension: s("d"),
            pattern: s("a%"),
            escape: Some(s("\\")),
            extraction_function: None,
        },
    );
    round_trip_filter(bound_filter());
    round_trip_filter(
        Filter::Interval {
            type_: FilterType::Interval,
            dimension: s("__time"),
            intervals: vec![s("2020/2021")],
            extraction_function: Some(ef()),
        },
    );
    round_trip_filter(Filter::True { type_: FilterType::True });
    round_trip_filter(Filter::Expression { type_: FilterType::Expression, expression: s("a > 1") });
}

fn round_trip_function(function: ExtractionFunction) {
    assert!(function.validate());
    let back = ExtractionFunction::decode(&document(&text(&function.encode()))).unwrap();
    assert_eq!(back, function);
}

#[test]
fn every_extraction_function_shape_comes_back() {
    let s = |x: &str| x.to_string();
    round_trip_function(
        ExtractionFunction::Regex {
            type_: T::Regex,
            expr: s("(a)"),
            index: 1,
            replace_missing_value: true,
            replace_missing_value_with: Some(s("?")),
        },
    );
    round_trip_function(ExtractionFunction::Partial { type_: T::Partial, expr: s("a") });
    round_trip_function(
        ExtractionFunction::SearchQuery {
            type_: T::SearchQuery,
            query: SearchQuery::Contains {
                type_: SearchQueryType::Contains,
                case_sensitive: true,
                value: s("x"),
            },
        },
    );
    round_trip_function(
        ExtractionFunction::Substring { type_: T::Substring, index: 0, length: None },
    );
    round_trip_function(ExtractionFunction::Strlen { type_: T::Strlen });
    round_trip_function(
        ExtractionFunction::TimeFormat {
            type_: T::TimeFormat,
            format: Some(s("yyyy")),
            time_zone: None,
            locale: Some(s("fr")),
            granularity: Some(Granularity::FifteenMinute),
            as_millis: Some(false),
        },
    );
    round_trip_function(
        ExtractionFunction::TimeParsing {
            type_: T::TimeParsing,
            time_format: s("a"),
            result_format: s("b"),
            joda: None,
        },
    );
    round_trip_function(
        ExtractionFunction::JavaScript {
            type_: T::JavaScript,
            function: s("f"),
            injective: Some(true),
        },
    );
    round_trip_function(ExtractionFunction::Cascade {
        type_: T::Cascade,
        extraction_fns: vec![
            ExtractionFunction::Lower { type_: T::Lower, locale: None },
            ExtractionFunction::Cascade { type_: T::Cascade, extraction_fns: vec![] },
        ],
    });
    round_trip_function(
        ExtractionFunction::StringFormat {
            type_: T::StringFormat,
            format: s("%s"),
            null_handling: Some(s("nullString")),
        },
    );
    round_trip_function(ExtractionFunction::Upper { type_: T::Upper, locale: None });
    round_trip_function(ExtractionFunction::Lower { type_: T::Lower, locale: Some(s("de")) });
    round_trip_function(ExtractionFunction::Bucket { type_: T::Bucket, size: 10, offset: 3 });
}

#[test]
fn every_aggregation_shape_comes_back() {
    let s = |x: &str| x.to_string();
    let pair = |make: fn(String, String) -> Aggregation| make(s("n"), s("f"));
    let all = vec![
        Aggregation::Count { name: s("rows") },
        pair(|name, field_name| Aggregation::DoubleSum { name, field_name }),
        pair(|name, field_name| Aggregation::LongSum { name, field_name }),
        pair(|name, field_name| Aggregation::FloatSum { name, field_name }),
        pair(|name, field_name| Aggregation::DoubleMax { name, field_name }),
        pair(|name, field_name| Aggregation::LongMax { name, field_name }),
        pair(|name, field_name| Aggregation::FloatMax { name, field_name }),
        pair(|name, field_name| Aggregation::DoubleMin { name, field_name }),
        pair(|name, field_name| Aggregation::LongMin { name, field_name }),
        pair(|name, field_name| Aggregation::FloatMin { name, field_name }),
        pair(|name, field_name| Aggregation::DoubleMean { name, field_name }),
        pair(|name, field_name| Aggregation::DoubleFirst { name, field_name }),
        pair(|name, field_name| Aggregation::LongFirst { name, field_name }),
        pair(|name, field_name| Aggregation::FloatFirst { name, field_name }),
        pair(|name, field_name| Aggregation::DoubleLast { name, field_name }),
        pair(|name, field_name| Aggregation::LongLast { name, field_name }),
        pair(|name, field_name| Aggregation::FloatLast { name, field_name }),
        pair(|name, field_name| Aggregation::DoubleAny { name, field_name }),
        pair(|name, field_name| Aggregation::LongAny { name, field_name }),
        pair(|name, field_name| Aggregation::FloatAny { name, field_name }),
        pair(|name, field_name| Aggregation::StringAny { name, field_name }),
        Aggregation::JavaScript {
            name: s("js"),
            field_names: vec![s("a")],
            fn_aggregate: s("a"),
            fn_combine: s("c"),
            fn_reset: s("r"),
        },
        Aggregation::Filtered {
            filter: selector(),
            aggregator: Box::new(Aggregation::Count { name: s("rows") }),
        },
        Aggregation::Grouping { name: s("g"), groupings: vec![s("a"), s("b")] },
    ];
    assert_eq!(all.len(), 24);
    for aggregation in all {
        let back = Aggregation::decode(&document(&text(&aggregation.encode()))).unwrap();
        assert_eq!(back, aggregation);
    }
    assert_eq!(
        text(&Aggregation::DoubleSum { name: s("n"), field_name: s("f") }.encode()),
        "{\"fieldName\":\"f\",\"name\":\"n\",\"type\":\"doubleSum\"}"
    );
}

#[test]
fn every_post_aggregation_shape_comes_back() {
    let s = |x: &str| x.to_string();
    let all = vec![
        PostAggregation::Arithmetic {
            name: s("n"),
            fn_: s("+"),
            fields: vec![s("a")],
            ordering: Some(s("numericFirst")),
        },
        PostAggregation::FieldAccess { name: s("n"), field_name: s("f") },
        PostAggregation::FinalizingFieldAccess { name: s("n"), field_name: s("f") },
        PostAggregation::DoubleGreatest { name: s("n"), fields: vec![s("a"), s("b")] },
        PostAggregation::LongGreatest { name: s("n"), fields: vec![] },
        PostAggregation::DoubleLeast { name: s("n"), fields: vec![s("a")] },
        PostAggregation::LongLeast { name: s("n"), fields: vec![s("a")] },
        PostAggregation::JavaScript { name: s("n"), field_names: vec![s("a")], function: s("f") },
        PostAggregation::HyperUniqueCardinality { name: s("n"), field_name: s("f") },
    ];
    for post in all {
        let back = PostAggregation::decode(&document(&text(&post.encode()))).unwrap();
        assert_eq!(back, post);
    }
}

#[test]
fn every_having_shape_comes_back() {
    let s = |x: &str| x.to_string();
    let leaf = || Having::EqualTo {
        type_: HavingType::EqualTo,
        aggregation: s("a"),
        value: number(1.25),
    };
    let all = vec![
        Having::Filter { type_: HavingType::Filter, filter: selector() },
        leaf(),
        Having::GreaterThan {
            type_: HavingType::GreaterThan,
            aggregation: s("a"),
            value: number(-1.0),
        },
        Having::LessThan { type_: HavingType::LessThan, aggregation: s("a"), value: number(0.5) },
        Having::DimSelector {
            type_: HavingType::DimSelector,
            dimension: s("d"),
            value: DimensionSpec::Default {
                type_: DimensionSpecType::Default,
                dimension: s("d"),
                output_name: Some(s("o")),
                output_type: Some(OutputType::Long),
            },
        },
        Having::And {
            type_: HavingType::And,
            having_specs: vec![Box::new(leaf()), Box::new(leaf())],
        },
        Having::Or { type_: HavingType::Or, having_specs: vec![] },
        Having::Not {
            type_: HavingType::Not,
            having_specs: vec![
                Box::new(
                    Having::And { type_: HavingType::And, having_specs: vec![Box::new(leaf())] },
                ),
            ],
        },
    ];
    for having in all {
        assert!(having.validate());
        let back = Having::decode(&document(&text(&having.encode()))).unwrap();
        assert_eq!(back, having);
    }
    assert_eq!(
        text(&Having::And { type_: HavingType::And, having_specs: vec![] }.encode()),
        "{\"havingSpecs\":[],\"type\":\"and\"}"
    );
}

#[test]
fn every_dimension_shape_comes_back() {
    let s = |x: &str| x.to_string();
    let base = || DimensionSpec::Default {
        type_: DimensionSpecType::Default,
        dimension: s("d"),
        output_name: None,
        output_type: None,
    };
    let all = vec![
        base(),
        DimensionSpec::Extraction {
            type_: DimensionSpecType::Extraction,
            dimension: s("d"),
            output_name: Some(s("o")),
            output_type: Some(OutputType::Complex),
            extraction_fn: ExtractionFunction::Strlen { type_: ExtractionFunctionType::Strlen },
        },
        DimensionSpec::ListFiltered {
            type_: DimensionSpecType::ListFiltered,
            delegate: Box::new(base()),
            values: vec![s("a")],
            is_whitelist: Some(false),
        },
        DimensionSpec::RegexFiltered {
            type_: DimensionSpecType::RegexFiltered,
            delegate: Box::new(base()),
            pattern: s(".*"),
        },
        DimensionSpec::PrefixFiltered {
            type_: DimensionSpecType::PrefixFiltered,
            delegate: Box::new(
                DimensionSpec::RegexFiltered {
                    type_: DimensionSpecType::RegexFiltered,
                    delegate: Box::new(base()),
                    pattern: s("a"),
                },
            ),
            prefix: s("p"),
        },
    ];
    for dimension in all {
        assert!(dimension.validate());
        let back = DimensionSpec::decode(&document(&text(&dimension.encode()))).unwrap();
        assert_eq!(back, dimension);
    }
    assert_eq!(
        text(
            &DimensionSpec::Default { type_: DimensionSpecType::Default, dimension: s("d"), output_name: Some(s("o")), output_type: Some(OutputType::Double) }.encode(),
        ),
        "{\"dimension\":\"d\",\"outputName\":\"o\",\"outputType\":\"DOUBLE\",\"type\":\"default\"}"
    );
}

#[test]
fn every_data_source_shape_comes_back() {
    let s = |x: &str| x.to_string();
    let table = || DataSource::Table { type_: DataSourceType::Table, name: s("t") };
    let all = vec![
        DataSource::String(s("wikipedia")),
        table(),
        DataSource::Union { type_: DataSourceType::Union, data_sources: vec![s("a"), s("b")] },
        DataSource::Inline {
            type_: DataSourceType::Inline,
            column_names: vec![s("c1"), s("c2")],
            rows: vec![vec![s("1"), s("2")], vec![], vec![s("3")]],
        },
        DataSource::Query {
            type_: DataSourceType::Query,
            query: Box::new(NativeQuery::Scan {
                data_source: table(),
                intervals: vec![s("2020/2021")],
                result_format: Some(ResultFormat::CompactedList),
                offset: Some(3),
                order: Some(Order::Nothing),
                legacy: Some(false),
                context: None,
            }),
        },
        DataSource::Join {
            type_: DataSourceType::Join,
            left: Box::new(table()),
            right: Box::new(DataSource::String(s("u"))),
            right_prefix: s("r."),
            condition: s("a == \"r.a\""),
            join_type: s("LEFT"),
        },
        DataSource::Unnest {
            type_: DataSourceType::Unnest,
            base: Box::new(table()),
            virtual_column: VirtualColumn {
                type_: VirtualColumnType::VirtualColumn,
                name: s("v"),
                expression: s("\"tags\""),
                output_type: OutputType::Array,
            },
            unnest_filter: Some(s("v != 'x'")),
        },
    ];
    for source in all {
        assert!(source.validate());
        let back = DataSource::decode(&document(&text(&source.encode()))).unwrap();
        assert_eq!(back, source);
    }
    assert_eq!(
        text(
            &DataSource::Union { type_: DataSourceType::Union, data_sources: vec![s("a")] }.encode(),
        ),
        "{\"dataSources\":[\"a\"],\"type\":\"union\"}"
    );
}

#[test]
fn small_components_come_back() {
    let s = |x: &str| x.to_string();
    for selection in [
        ToInclude::All { type_: ToIncludeType::All },
        ToInclude::Nothing { type_: ToIncludeType::Nothing },
        ToInclude::List { type_: ToIncludeType::List, columns: vec![s("a")] },
    ] {
        assert_eq!(ToInclude::decode(&document(&text(&selection.encode()))), Some(selection));
    }
    assert_eq!(
        text(&ToInclude::Nothing { type_: ToIncludeType::Nothing }.encode()),
        "{\"type\":\"none\"}",
    );
    for metric in [
        TopNMetricSpec::Numeric { type_: TopNMetricSpecType::Numeric, metric: s("m") },
        TopNMetricSpec::Dimension {
            type_: TopNMetricSpecType::Dimension,
            ordering: Some(s("lexicographic")),
            previous_stop: None,
        },
    ] {
        assert_eq!(TopNMetricSpec::decode(&document(&text(&metric.encode()))), Some(metric));
    }
    let limit = LimitSpec {
        type_: LimitSpecType::Default,
        limit: Some(100),
        offset: None,
        columns: Some(
            vec![
                OrderByColumnSpec {
                    dimension: s("d"),
                    direction: Direction::Descending,
                    dimension_order: Sort::Alphanumeric,
                },
            ],
        ),
    };
    assert_eq!(
        text(&limit.encode()),
        "{\"columns\":[{\"dimension\":\"d\",\"dimensionOrder\":\"alphanumeric\",\"direction\":\"descending\"}],\"limit\":100,\"type\":\"default\"}"
    );
    assert_eq!(LimitSpec::decode(&document(&text(&limit.encode()))), Some(limit));
    let granularity = GranularitySpec {
        type_: GranularitySpecType::GranularitySpec,
        segment_granularity: Granularity::Day,
        query_granularity: Granularity::ThirtyMinute,
        rollup: Some(true),
        intervals: Some(vec![s("2020/2021")]),
    };
    assert!(granularity.validate());
    assert_eq!(
        text(&granularity.encode()),
        "{\"intervals\":[\"2020/2021\"],\"queryGranularity\":\"thirty_minute\",\"rollup\":true,\"segmentGranularity\":\"day\",\"type\":\"granularitySpec\"}"
    );
    assert_eq!(GranularitySpec::decode(&document(&text(&granularity.encode()))), Some(granularity));
    let column = VirtualColumn {
        type_: VirtualColumnType::VirtualColumn,
        name: s("v"),
        expression: s("a + b"),
        output_type: OutputType::Float,
    };
    assert!(column.validate());
    assert_eq!(VirtualColumn::decode(&document(&text(&column.encode()))), Some(column));
}

fn context() -> Context {
    let mut context = Context::new();
    context.set_integer(Field::Timeout, 30000);
    context.set_flag(Field::UseCache, false);
    context.set_flag(Field::UseFilterCnf, true);
    context.set_text(Field::QueryId, "q-1");
    context.set_number(Field::BufferGrouperMaxLoadFactor, &number(0.75));
    context.set_integer(Field::Timeout, 500);
    context
}

#[test]
fn context_is_handed_on_as_it_is() {
    assert_eq!(text(&Context::default().encode()), "{}");
    assert_eq!(
        text(&context().encode()),
        "{\"bufferGrouperMaxLoadFactor\":0.75,\"queryId\":\"q-1\",\"timeout\":500,\"useCache\":false,\"useFilterCNF\":true}"
    );
    let odd = "{\"timeout\":\"soon\",\"unheardOf\":[1,{\"a\":null}],\"vectorize\":\"force\"}";
    let decoded = Context::decode(&document(odd)).unwrap();
    assert_eq!(text(&decoded.encode()), odd);
    assert_eq!(decoded.clone(), decoded);
    assert_eq!(Context::decode(&document("[]")), None);
    assert_eq!(Context::decode(&document("\"timeout\"")), None);
}

#[test]
fn every_query_shape_comes_back() {
    let s = |x: &str| x.to_string();
    let source = || DataSource::String(s("wikipedia"));
    let dimension = || DimensionSpec::Default {
        type_: DimensionSpecType::Default,
        dimension: s("page"),
        output_name: None,
        output_type: None,
    };
    let count = || Aggregation::Count { name: s("rows") };
    let post = || vec![PostAggregation::FieldAccess { name: s("n"), field_name: s("rows") }];
    let all = vec![
        NativeQuery::Timeseries {
            data_source: source(),
            descending: Some(true),
            intervals: vec![s("2020/2021")],
            granularity: Granularity::Hour,
            filter: Some(selector()),
            aggregations: Some(count()),
            post_aggregations: Some(post()),
            limit: Some(7),
            context: Some(context()),
        },
        NativeQuery::TopN {
            data_source: source(),
            intervals: vec![],
            granularity: Granularity::All,
            filter: None,
            aggregations: None,
            post_aggregations: None,
            dimension: dimension(),
            threshold: 10,
            metric: TopNMetricSpec::Numeric {
                type_: TopNMetricSpecType::Numeric,
                metric: s("rows"),
            },
            context: None,
        },
        NativeQuery::GroupBy {
            data_source: source(),
            dimensions: vec![dimension(), dimension()],
            limit_spec: Some(
                LimitSpec {
                    type_: LimitSpecType::Default,
                    limit: Some(5),
                    offset: Some(1),
                    columns: None,
                },
            ),
            having: Some(
                Having::GreaterThan {
                    type_: HavingType::GreaterThan,
                    aggregation: s("rows"),
                    value: number(1.0),
                },
            ),
            granularity: Granularity::Nothing,
            filter: Some(bound_filter()),
            aggregations: Some(count()),
            post_aggregations: Some(vec![]),
            intervals: vec![s("2020/2021"), s("2022/2023")],
            subtotals_spec: Some(vec![vec![s("page")], vec![]]),
            context: Some(Context::new()),
        },
        NativeQuery::TimeBoundary {
            data_source: source(),
            bound: Some(Bound::MaxTime),
            filter: None,
            context: None,
        },
        NativeQuery::SegmentMetadata {
            data_source: source(),
            intervals: Some(vec![s("2020/2021")]),
            to_include: Some(
                vec![ToInclude::List { type_: ToIncludeType::List, columns: vec![s("a")] }],
            ),
            merge: Some(true),
            context: None,
            analysis_types: vec![
                AnalysisType::Cardinality,
                AnalysisType::TimestampSpec,
                AnalysisType::Rollup,
            ],
            lenient_aggregator_merge: Some(false),
        },
        NativeQuery::DatasourceMetadata { data_source: source(), context: None },
        NativeQuery::Scan {
            data_source: source(),
            intervals: vec![],
            result_format: Some(ResultFormat::List),
            offset: None,
            order: Some(Order::Descending),
            legacy: None,
            context: None,
        },
        NativeQuery::Search {
            data_source: source(),
            granularity: Some(Granularity::Quarter),
            filter: None,
            limit: None,
            intervals: vec![],
            search_dimensions: Some(vec![s("page"), s("user")]),
            query: SearchQuery::Fragment {
                type_: SearchQueryType::Fragment,
                case_sensitive: true,
                values: vec![s("a")],
            },
            sort: Some(Sort::Strlen),
            context: None,
        },
    ];
    for query in all {
        assert!(query.validate());
        let wire = text(&query.encode());
        let back = NativeQuery::decode(&document(&wire)).unwrap();
        assert_eq!(back, query);
        assert_eq!(text(&back.encode()), wire);
    }
}

#[test]
fn group_by_goes_on_the_wire_in_camel_case() {
    let s = |x: &str| x.to_string();
    let query = NativeQuery::GroupBy {
        data_source: DataSource::Table { type_: DataSourceType::Table, name: s("t") },
        dimensions: vec![],
        limit_spec: None,
        having: None,
        granularity: Granularity::All,
        filter: None,
        aggregations: None,
        post_aggregations: Some(vec![]),
        intervals: vec![],
        subtotals_spec: Some(vec![vec![s("a")]]),
        context: None,
    };
    assert_eq!(
        text(&query.encode()),
        "{\"dataSource\":{\"name\":\"t\",\"type\":\"table\"},\"dimensions\":[],\"granularity\":\"all\",\"intervals\":[],\"postAggregations\":[],\"queryType\":\"groupBy\",\"subtotalsSpec\":[[\"a\"]]}"
    );
    let metadata = NativeQuery::DatasourceMetadata {
        data_source: DataSource::String(s("t")),
        context: None,
    };
    assert_eq!(
        text(&metadata.encode()),
        "{\"dataSource\":\"t\",\"queryType\":\"dataSourceMetadata\"}",
    );
}

#[test]
fn member_names_are_spelled_as_on_the_wire() {
    assert_eq!(Field::Type.text(), "type");
    assert_eq!(Field::QueryType.text(), "queryType");
    assert_eq!(Field::Fn.text(), "fn");
    assert_eq!(Field::UseFilterCnf.text(), "useFilterCNF");
    assert_eq!(Field::Collation.text(), "ordering");
    assert_eq!(Field::MinTopNThreshold.text(), "minTopNThreshold");
    assert_eq!(Field::ExtractionFunction.text(), "extractionFunction");
    assert_eq!(Field::ExtractionFn.text(), "extractionFn");
}

#[test]
fn context_parameters_are_read_back_by_name() {
    let context = context();
    assert_eq!(context.integer(Field::Timeout), Some(500));
    assert_eq!(context.flag(Field::UseCache), Some(false));
    assert_eq!(context.flag(Field::UseFilterCnf), Some(true));
    assert_eq!(context.text(Field::QueryId), Some("q-1".to_string()));
    assert_eq!(context.number(Field::BufferGrouperMaxLoadFactor), Some(number(0.75)));
    assert_eq!(context.integer(Field::Priority), None);
    assert_eq!(context.integer(Field::UseCache), None);
    assert_eq!(context.flag(Field::Timeout), None);
    assert_eq!(context.text(Field::Timeout), None);
    let decoded = Context::decode(&document("{\"lane\":null,\"priority\":-1,\"debug\":true}")).unwrap();
    assert_eq!(decoded.integer(Field::Lane), None);
    assert_eq!(decoded.integer(Field::Priority), None);
    assert_eq!(decoded.number(Field::Priority).map(|n| n.number.as_i64()), Some(Some(-1)));
    assert_eq!(decoded.flag(Field::Debug), Some(true));
    assert_eq!(Context::new().flag(Field::Debug), None);
}
