use cathbad::client::{CathbadClient, CathbadClientConfig, CathbadClientError, DruidError, Step};
use cathbad::decimal::decimal_text;
use cathbad::literal::Literal;
use cathbad::query::{
    DataSource, DruidQueryResponse, NativeQuery, SearchQuery, SearchQueryType,
};

#[test]
fn test_default_client_creation() {
    let client = CathbadClient::default();

    assert_eq!(client.config.druid_endpoint, "http://localhost");
    assert_eq!(client.config.druid_port, 8888);

    assert_eq!(client.format_endpoint(), "http://localhost:8888");
}

#[test]
fn endpoint_is_host_colon_port() {
    let client = CathbadClient::new(CathbadClientConfig {
        druid_endpoint: "https://druid.example.org".to_string(),
        druid_port: 0,
    });
    assert_eq!(client.format_endpoint(), "https://druid.example.org:0");
    let client = CathbadClient::new(CathbadClientConfig {
        druid_endpoint: String::new(),
        druid_port: 4294967295,
    });
    assert_eq!(client.format_endpoint(), ":4294967295");
}

#[test]
fn decimal_text_writes_numbers_without_leading_zeros() {
    assert_eq!(decimal_text(0), "0");
    assert_eq!(decimal_text(7), "7");
    assert_eq!(decimal_text(10), "10");
    assert_eq!(decimal_text(8888), "8888");
    assert_eq!(decimal_text(1000000), "1000000");
    assert_eq!(decimal_text(u32::MAX), "4294967295");
}

fn valid_query() -> NativeQuery {
    NativeQuery::Search {
        data_source: DataSource::String("example".to_string()),
        granularity: None,
        filter: None,
        limit: Some(10),
        intervals: vec!["2020-01-01/2020-01-02".to_string()],
        search_dimensions: None,
        query: SearchQuery::Regex { type_: SearchQueryType::Regex, pattern: "^a".to_string() },
        sort: None,
        context: None,
    }
}

#[test]
fn valid_query_is_posted_once_with_fixed_headers() {
    let client = CathbadClient::default();
    match client.begin(&valid_query()) {
        Step::Send(request) => {
            assert_eq!(request.endpoint, "http://localhost:8888");
            assert_eq!(request.content_type, "application/json");
            assert_eq!(request.accept, "application/json");
            assert_eq!(
                request.body,
                "{\"dataSource\":\"example\",\"intervals\":[\"2020-01-01/2020-01-02\"],\"limit\":10,\"query\":{\"pattern\":\"^a\",\"type\":\"regex\"},\"queryType\":\"search\"}"
            );
        }
        other => panic!("expected a request, got {:?}", other),
    }
}

#[test]
fn invalid_query_is_never_sent() {
    let client = CathbadClient::default();
    let mistagged = NativeQuery::Search {
        data_source: DataSource::String("example".to_string()),
        granularity: None,
        filter: None,
        limit: None,
        intervals: vec![],
        search_dimensions: None,
        query: SearchQuery::Regex {
            type_: SearchQueryType::Contains,
            pattern: "^a".to_string(),
        },
        sort: None,
        context: None,
    };
    assert!(matches!(
        client.begin(&mistagged),
        Step::Done(Err(CathbadClientError::InvalidQuery))
    ));
    let unnamed = NativeQuery::Scan {
        data_source: DataSource::String(String::new()),
        intervals: vec![],
        result_format: None,
        offset: None,
        order: None,
        legacy: None,
        context: None,
    };
    assert!(matches!(
        client.begin(&unnamed),
        Step::Done(Err(CathbadClientError::InvalidQuery))
    ));
}

#[test]
fn text_that_cannot_be_written_ends_the_submission() {
    let client = CathbadClient::default();
    let error = serde_json::from_str::<serde_json::Value>("{").unwrap_err();
    assert!(matches!(
        client.submit(Err(error)),
        Step::Done(Err(CathbadClientError::QueryMarshal { .. }))
    ));
    match client.submit(Ok("{}".to_string())) {
        Step::Send(request) => assert_eq!(request.body, "{}"),
        other => panic!("expected a request, got {:?}", other),
    }
}

#[test]
fn success_statuses_end_the_submission() {
    for status in [200u16, 201, 204, 299] {
        assert!(matches!(
            CathbadClient::on_response(status),
            Step::Done(Ok(DruidQueryResponse::Success {}))
        ));
    }
}

#[test]
fn refusal_statuses_ask_for_the_body() {
    for status in [400u16, 429, 500, 501, 504] {
        assert!(matches!(CathbadClient::on_response(status), Step::ReadBody));
    }
}

#[test]
fn other_statuses_are_unreadable() {
    for status in [0u16, 100, 199, 300, 301, 401, 403, 404, 428, 430, 499, 502, 503, 505, 65535] {
        assert!(matches!(
            CathbadClient::on_response(status),
            Step::Done(Err(CathbadClientError::DruidErrorUnmarshal))
        ));
    }
}

#[test]
fn capacity_exceeded_is_classified() {
    let outcome = CathbadClient::classify(429, "{\"error\":\"Query capacity exceeded\"}");
    assert!(matches!(
        outcome,
        Err(CathbadClientError::Druid { druid_error: DruidError::QueryCapacityExceeded })
    ));
}

#[test]
fn not_found_is_unreadable_whatever_the_body() {
    for body in ["", "{\"error\":\"Query capacity exceeded\"}", "not json", "{}"] {
        assert!(matches!(
            CathbadClient::classify(404, body),
            Err(CathbadClientError::DruidErrorUnmarshal)
        ));
    }
}

#[test]
fn success_is_classified_without_reading_the_body() {
    for body in ["", "[1,2,3]", "{\"error\":\"Query timeout\"}"] {
        assert!(matches!(
            CathbadClient::classify(200, body),
            Ok(DruidQueryResponse::Success {})
        ));
    }
}

#[test]
fn every_named_refusal_is_recognised() {
    let table = [
        ("SQL parse failed", DruidError::SQLParseFailed, 400u16),
        ("Plan validation failed", DruidError::PlanValidationFailed, 400),
        ("Resource limit exceeded", DruidError::ResourceLimitExceeded, 400),
        ("Query capacity exceeded", DruidError::QueryCapacityExceeded, 429),
        ("Unsupported operation", DruidError::UnsupportedOperation, 501),
        ("Query timeout", DruidError::QueryTimeout, 504),
        ("Query interrupted", DruidError::QueryInterrupted, 500),
        ("Query cancelled", DruidError::QueryCancelled, 500),
        ("Truncated response context", DruidError::TruncatedResponseContext, 500),
        ("Unknown exception", DruidError::UnknownException, 500),
    ];
    for (words, kind, status) in table {
        assert_eq!(DruidError::parse(words), Some(kind));
        assert_eq!(kind.wire_name(), words);
        assert_eq!(kind.nominal_status(), status);
        let body = format!(
            "{{\"error\":\"{}\",\"errorMessage\":\"because\",\"host\":\"broker:8082\"}}",
            words,
        );
        match CathbadClient::on_body(&body) {
            Step::Done(Err(CathbadClientError::Druid { druid_error })) => {
                assert_eq!(druid_error, kind)
            }
            other => panic!("expected a refusal, got {:?}", other),
        }
        let answer = DruidQueryResponse::Error {
            error: words.to_string(),
            error_message: None,
            error_class: None,
            host: None,
        };
        assert!(matches!(DruidError::try_from(answer), Ok(k) if k == kind));
    }
}

#[test]
fn unknown_or_malformed_refusals_are_unreadable() {
    let bodies = [
        "",
        "not json",
        "{}",
        "[]",
        "\"Query timeout\"",
        "{\"error\":\"query timeout\"}",
        "{\"error\":\"Query timeout \"}",
        "{\"error\":\"Something else\"}",
        "{\"error\":504}",
        "{\"error\":null}",
        "{\"error\":\"Query timeout\",\"host\":17}",
        "{\"errorMessage\":\"Query timeout\"}",
    ];
    for body in bodies {
        assert!(
            matches!(
                CathbadClient::on_body(body),
                Step::Done(Err(CathbadClientError::DruidErrorUnmarshal))
            ),
            "body {:?}",
            body
        );
        assert!(matches!(
            CathbadClient::classify(500, body),
            Err(CathbadClientError::DruidErrorUnmarshal)
        ));
    }
}

#[test]
fn refusal_with_null_details_is_read() {
    let body = "{\"error\":\"Query timeout\",\"errorMessage\":null,\"errorClass\":null,\"host\":null,\"extra\":[1]}";
    assert!(matches!(
        CathbadClient::classify(504, body),
        Err(CathbadClientError::Druid { druid_error: DruidError::QueryTimeout })
    ));
    let document: serde_json::Value = serde_json::from_str(body).unwrap();
    assert_eq!(
        DruidQueryResponse::decode_error(&document),
        Some(DruidQueryResponse::Error {
            error: "Query timeout".to_string(),
            error_message: None,
            error_class: None,
            host: None,
        })
    );
}

#[test]
fn success_answer_names_no_refusal() {
    assert!(matches!(
        DruidError::try_from(DruidQueryResponse::Success {}),
        Err(CathbadClientError::DruidErrorUnmarshal)
    ));
    let unknown = DruidQueryResponse::Error {
        error: "Out of coffee".to_string(),
        error_message: Some("sorry".to_string()),
        error_class: None,
        host: None,
    };
    assert!(matches!(
        DruidError::try_from(unknown),
        Err(CathbadClientError::DruidErrorUnmarshal)
    ));
}

#[test]
fn transport_failure_ends_the_submission() {
    let error = reqwest::Client::new().get("not an address").build().unwrap_err();
    assert!(matches!(
        CathbadClient::on_failure(error),
        Step::Done(Err(CathbadClientError::Reqwest { .. }))
    ));
}

#[test]
fn errors_convert_into_client_errors() {
    let parse_error = serde_json::from_str::<serde_json::Value>("[").unwrap_err();
    assert!(matches!(
        CathbadClientError::from(parse_error),
        CathbadClientError::QueryMarshal { .. }
    ));
    let transport_error = reqwest::Client::new().get("::").build().unwrap_err();
    assert!(matches!(
        CathbadClientError::from(transport_error),
        CathbadClientError::Reqwest { .. }
    ));
    assert!(matches!(
        CathbadClientError::from(DruidError::QueryCancelled),
        CathbadClientError::Druid { druid_error: DruidError::QueryCancelled }
    ));
}

#[test]
fn default_configuration_points_at_this_machine() {
    let config = CathbadClientConfig::default();
    assert_eq!(config.druid_endpoint, "http://localhost");
    assert_eq!(config.druid_port, 8888);
    let copy = config.clone();
    assert_eq!(copy.druid_endpoint, config.druid_endpoint);
    assert_eq!(copy.druid_port, config.druid_port);
}
