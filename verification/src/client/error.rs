//! What can go wrong when a query is submitted.

use vstd::prelude::*;
use vstd::std_specs::convert::FromSpecImpl;
use crate::json::same_text;
use crate::literal::{from_literal, lemma_from_literal, outline, Literal};
use crate::query::response::{DruidQueryResponse, DruidQueryResponseView};

verus! {

/// `reqwest::Error`, carried as an opaque type.
#[verifier::external_type_specification]
#[verifier::external_body]
pub struct ExTransportError(reqwest::Error);

/// The kinds of refusal that the engine names in its answer.
#[derive(Debug, Clone, Copy, PartialEq, Eq, Structural)]
pub enum DruidError {
    SQLParseFailed,
    PlanValidationFailed,
    ResourceLimitExceeded,
    QueryCapacityExceeded,
    UnsupportedOperation,
    QueryTimeout,
    QueryInterrupted,
    QueryCancelled,
    TruncatedResponseContext,
    UnknownException,
}

impl Literal for DruidError {
    /// The words by which the engine names this kind of refusal.
    open spec fn literal(self) -> Seq<char> {
        match self {
            DruidError::SQLParseFailed => "SQL parse failed"@,
            DruidError::PlanValidationFailed => "Plan validation failed"@,
            DruidError::ResourceLimitExceeded => "Resource limit exceeded"@,
            DruidError::QueryCapacityExceeded => "Query capacity exceeded"@,
            DruidError::UnsupportedOperation => "Unsupported operation"@,
            DruidError::QueryTimeout => "Query timeout"@,
            DruidError::QueryInterrupted => "Query interrupted"@,
            DruidError::QueryCancelled => "Query cancelled"@,
            DruidError::TruncatedResponseContext => "Truncated response context"@,
            DruidError::UnknownException => "Unknown exception"@,
        }
    }

    proof fn lemma_literal_injective(a: Self, b: Self) {
        reveal_strlit("SQL parse failed");
        reveal_strlit("Plan validation failed");
        reveal_strlit("Resource limit exceeded");
        reveal_strlit("Query capacity exceeded");
        reveal_strlit("Unsupported operation");
        reveal_strlit("Query timeout");
        reveal_strlit("Query interrupted");
        reveal_strlit("Query cancelled");
        reveal_strlit("Truncated response context");
        reveal_strlit("Unknown exception");
        assert(outline(a.literal()) == outline(b.literal()) ==> a == b);
    }

    fn wire_name(&self) -> (r: &'static str) {
        match self {
            DruidError::SQLParseFailed => "SQL parse failed",
            DruidError::PlanValidationFailed => "Plan validation failed",
            DruidError::ResourceLimitExceeded => "Resource limit exceeded",
            DruidError::QueryCapacityExceeded => "Query capacity exceeded",
            DruidError::UnsupportedOperation => "Unsupported operation",
            DruidError::QueryTimeout => "Query timeout",
            DruidError::QueryInterrupted => "Query interrupted",
            DruidError::QueryCancelled => "Query cancelled",
            DruidError::TruncatedResponseContext => "Truncated response context",
            DruidError::UnknownException => "Unknown exception",
        }
    }

    fn parse(text: &str) -> (r: Option<Self>) {
        if same_text(text, "SQL parse failed") {
            Some(DruidError::SQLParseFailed)
        } else if same_text(text, "Plan validation failed") {
            Some(DruidError::PlanValidationFailed)
        } else if same_text(text, "Resource limit exceeded") {
            Some(DruidError::ResourceLimitExceeded)
        } else if same_text(text, "Query capacity exceeded") {
            Some(DruidError::QueryCapacityExceeded)
        } else if same_text(text, "Unsupported operation") {
            Some(DruidError::UnsupportedOperation)
        } else if same_text(text, "Query timeout") {
            Some(DruidError::QueryTimeout)
        } else if same_text(text, "Query interrupted") {
            Some(DruidError::QueryInterrupted)
        } else if same_text(text, "Query cancelled") {
            Some(DruidError::QueryCancelled)
        } else if same_text(text, "Truncated response context") {
            Some(DruidError::TruncatedResponseContext)
        } else if same_text(text, "Unknown exception") {
            Some(DruidError::UnknownException)
        } else {
            None
        }
    }
}

/// What can go wrong when a query is submitted.
#[derive(Debug)]
pub enum CathbadClientError {
    /// The query is not valid. It was not sent.
    InvalidQuery,
    /// The query could not be written as a text. It was not sent.
    QueryMarshal { serde_error: serde_json::Error },
    /// No answer came back.
    Reqwest { reqwest_error: reqwest::Error },
    /// The engine refused the query.
    Druid { druid_error: DruidError },
    /// The engine's answer reports no success and names no known kind of
    /// refusal.
    DruidErrorUnmarshal,
}

impl DruidError {
    /// The kind of refusal that an answer names, where it names one.
    pub open spec fn named_by(answer: DruidQueryResponseView) -> Option<DruidError> {
        match answer {
            DruidQueryResponseView::Success {  } => None,
            DruidQueryResponseView::Error { error, .. } => from_literal::<DruidError>(error),
        }
    }

    /// The status under which the engine reports this kind of refusal.
    pub open spec fn nominal_status_of(self) -> u16 {
        match self {
            DruidError::SQLParseFailed => 400,
            DruidError::PlanValidationFailed => 400,
            DruidError::ResourceLimitExceeded => 400,
            DruidError::QueryCapacityExceeded => 429,
            DruidError::UnsupportedOperation => 501,
            DruidError::QueryTimeout => 504,
            DruidError::QueryInterrupted => 500,
            DruidError::QueryCancelled => 500,
            DruidError::TruncatedResponseContext => 500,
            DruidError::UnknownException => 500,
        }
    }

    /// The status under which the engine reports this kind of refusal.
    pub fn nominal_status(&self) -> (r: u16)
        ensures
            r == self.nominal_status_of(),
    {
        match self {
            DruidError::SQLParseFailed => 400,
            DruidError::PlanValidationFailed => 400,
            DruidError::ResourceLimitExceeded => 400,
            DruidError::QueryCapacityExceeded => 429,
            DruidError::UnsupportedOperation => 501,
            DruidError::QueryTimeout => 504,
            DruidError::QueryInterrupted => 500,
            DruidError::QueryCancelled => 500,
            DruidError::TruncatedResponseContext => 500,
            DruidError::UnknownException => 500,
        }
    }

    /// The kind of refusal that an answer names. An answer that reports
    /// success, or names no known kind, cannot be read as a refusal.
    pub fn try_from(value: DruidQueryResponse) -> (r: Result<DruidError, CathbadClientError>)
        ensures
            r matches Ok(kind) ==> DruidError::named_by(value@) == Some(kind),
            r matches Err(e) ==> DruidError::named_by(value@) is None && e is DruidErrorUnmarshal,
    {
        match value {
            DruidQueryResponse::Success {  } => Err(CathbadClientError::DruidErrorUnmarshal),
            DruidQueryResponse::Error { error, .. } => match DruidError::parse(error.as_str()) {
                Some(kind) => {
                    proof {
                        lemma_from_literal(kind);
                    }
                    Ok(kind)
                },
                None => Err(CathbadClientError::DruidErrorUnmarshal),
            },
        }
    }
}

impl From<serde_json::Error> for CathbadClientError {
    fn from(value: serde_json::Error) -> (r: Self) {
        CathbadClientError::QueryMarshal { serde_error: value }
    }
}

impl FromSpecImpl<serde_json::Error> for CathbadClientError {
    open spec fn obeys_from_spec() -> bool {
        true
    }

    open spec fn from_spec(value: serde_json::Error) -> Self {
        CathbadClientError::QueryMarshal { serde_error: value }
    }
}

impl From<reqwest::Error> for CathbadClientError {
    fn from(value: reqwest::Error) -> (r: Self) {
        CathbadClientError::Reqwest { reqwest_error: value }
    }
}

impl FromSpecImpl<reqwest::Error> for CathbadClientError {
    open spec fn obeys_from_spec() -> bool {
        true
    }

    open spec fn from_spec(value: reqwest::Error) -> Self {
        CathbadClientError::Reqwest { reqwest_error: value }
    }
}

impl From<DruidError> for CathbadClientError {
    fn from(value: DruidError) -> (r: Self) {
        CathbadClientError::Druid { druid_error: value }
    }
}

impl FromSpecImpl<DruidError> for CathbadClientError {
    open spec fn obeys_from_spec() -> bool {
        true
    }

    open spec fn from_spec(value: DruidError) -> Self {
        CathbadClientError::Druid { druid_error: value }
    }
}

} // verus!
