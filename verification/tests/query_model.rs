use cathbad::literal::Literal;
use cathbad::query::{
    DataSource, Filter, FilterType, NativeQuery, NativeQueryType, SearchQuery, SearchQueryType,
    TypeConstrainedQuery,
};

fn search_example() -> NativeQuery {
    NativeQuery::Search {
        data_source: DataSource::String("example".to_string()),
        granularity: None,
        filter: None,
        limit: None,
        intervals: vec![],
        search_dimensions: None,
        query: SearchQuery::InsensitiveContains {
            type_: SearchQueryType::InsensitiveContains,
            value: "DUMMY_VALUE".to_string(),
        },
        sort: None,
        context: None,
    }
}

#[test]
fn test_basic_serde() {
    let query_basic = search_example();

    assert!(query_basic.validate_type());
    assert!(query_basic.validate_subcomponents());

    let payload = serde_json::to_string_pretty(&query_basic.encode()).unwrap();

    println!("{}", payload);

    let document: serde_json::Value = serde_json::from_str(&payload).unwrap();
    let roundabout = NativeQuery::decode(&document).unwrap();

    println!("{:?}", roundabout);

    assert_eq!(roundabout, query_basic);
}

#[test]
fn search_query_goes_on_the_wire_as_expected() {
    let text = serde_json::to_string(&search_example().encode()).unwrap();
    assert_eq!(
        text,
        "{\"dataSource\":\"example\",\"intervals\":[],\"query\":{\"type\":\"insensitiveContains\",\"value\":\"DUMMY_VALUE\"},\"queryType\":\"search\"}"
    );
}

#[test]
fn query_without_filter_is_valid() {
    let query = search_example();
    assert!(query.validate());
    assert!(TypeConstrainedQuery::validate_type(&query));
    assert!(TypeConstrainedQuery::validate_subcomponents(&query));
}

#[test]
fn query_with_empty_data_source_name_is_invalid() {
    let query = NativeQuery::DatasourceMetadata {
        data_source: DataSource::String(String::new()),
        context: None,
    };
    assert!(query.validate_type());
    assert!(!query.validate_subcomponents());
    assert!(!query.validate());
}

#[test]
fn query_with_mistagged_filter_is_invalid() {
    let query = NativeQuery::TimeBoundary {
        data_source: DataSource::String("wikipedia".to_string()),
        bound: None,
        filter: Some(Filter::True { type_: FilterType::Selector }),
        context: None,
    };
    assert!(query.validate_type());
    assert!(!query.validate_subcomponents());
}

#[test]
fn query_type_literals_are_the_eight_of_the_wire() {
    let all = [
        (NativeQueryType::Timeseries, "timeseries"),
        (NativeQueryType::TopN, "topN"),
        (NativeQueryType::GroupBy, "groupBy"),
        (NativeQueryType::TimeBoundary, "timeBoundary"),
        (NativeQueryType::SegmentMetadata, "segmentMetadata"),
        (NativeQueryType::DatasourceMetadata, "dataSourceMetadata"),
        (NativeQueryType::Scan, "scan"),
        (NativeQueryType::Search, "search"),
    ];
    for (value, name) in all {
        assert_eq!(value.wire_name(), name);
        assert_eq!(NativeQueryType::parse(name), Some(value));
    }
    assert_eq!(NativeQueryType::parse("Search"), None);
    assert_eq!(NativeQueryType::parse(""), None);
}

#[test]
fn query_text_comes_back() {
    let query = search_example();
    let text = query.to_text().unwrap();
    assert_eq!(
        text,
        "{\"dataSource\":\"example\",\"intervals\":[],\"query\":{\"type\":\"insensitiveContains\",\"value\":\"DUMMY_VALUE\"},\"queryType\":\"search\"}"
    );
    assert_eq!(NativeQuery::from_text(&text), Some(query.clone()));
    let spaced = "  { \"queryType\" : \"search\", \"intervals\" : [ ], \"dataSource\" : \"example\",\n \"query\" : { \"value\" : \"DUMMY_VALUE\", \"type\" : \"insensitiveContains\" } } ";
    assert_eq!(NativeQuery::from_text(spaced), Some(query));
}

#[test]
fn text_that_is_no_query_is_refused() {
    for text in ["", "{", "[]", "null", "{}", "{\"queryType\":\"search\"}", "{\"queryType\":\"search\",\"dataSource\":\"t\",\"intervals\":[]}", "{\"queryType\":\"search\"} trailing"] {
        assert_eq!(NativeQuery::from_text(text), None, "text {:?}", text);
    }
}

#[test]
fn copies_are_equal_to_what_was_copied() {
    let query = NativeQuery::TimeBoundary {
        data_source: DataSource::String("wikipedia".to_string()),
        bound: None,
        filter: Some(Filter::And {
            type_: FilterType::And,
            fields: vec![
                Box::new(Filter::True { type_: FilterType::True }),
                Box::new(Filter::In {
                    type_: FilterType::In,
                    dimension: "d".to_string(),
                    values: vec!["a".to_string(), "b".to_string()],
                }),
            ],
        }),
        context: None,
    };
    assert_eq!(query.clone(), query);
    assert_eq!(query.duplicate(), query);
}

#[test]
fn query_travels_under_the_discriminator_of_its_shape() {
    let query = search_example();
    assert_eq!(query.discriminator(), NativeQueryType::Search);
    let other = NativeQuery::DatasourceMetadata {
        data_source: DataSource::String("t".to_string()),
        context: None,
    };
    assert_eq!(other.discriminator(), NativeQueryType::DatasourceMetadata);
    assert_eq!(other.discriminator().wire_name(), "dataSourceMetadata");
}
