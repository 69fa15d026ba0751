//! Submitting a query, decision by decision. Nothing here touches the
//! network: each function says what is to be done next, and whoever holds the
//! connection does it and reports back.

use vstd::prelude::*;
use vstd::string::StringExecFns;
use crate::client::config::CathbadClientConfig;
use crate::client::error::{CathbadClientError, DruidError};
use crate::decimal::{decimal, decimal_text};
use crate::json::{parse, parsed_text, render, rendered_text, value_model, JsonValue};
use crate::query::model::TypeConstrainedQuery;
use crate::query::response::{DruidQueryResponse, DruidQueryResponseView};

verus! {

/// What is posted to the engine.
#[derive(Debug)]
pub struct Request {
    /// The address the request goes to.
    pub endpoint: String,
    /// The value of the `Content-Type` header.
    pub content_type: String,
    /// The value of the `Accept` header.
    pub accept: String,
    /// The query, as a JSON text.
    pub body: String,
}

/// What is to be done next for a query under submission.
#[derive(Debug)]
pub enum Step {
    /// Post the request, once, and report the status of the answer.
    Send(Request),
    /// Read the body of the answer and report it.
    ReadBody,
    /// Nothing more: this is how the submission ended.
    Done(Result<DruidQueryResponse, CathbadClientError>),
}

/// Whether a status reports success.
pub open spec fn is_success(status: u16) -> bool {
    200 <= status < 300
}

/// Whether a status is one under which the engine names a kind of refusal in
/// the body of its answer.
pub open spec fn names_refusal(status: u16) -> bool {
    status == 400 || status == 429 || status == 500 || status == 501 || status == 504
}

/// The media type of everything that is sent and accepted.
pub open spec fn media_type() -> Seq<char> {
    "application/json"@
}

/// What the body of a refusing answer stands for: the kind of refusal that it
/// names, if it is a JSON text that names one.
pub open spec fn refusal_in(doc: Option<JsonValue>) -> Option<DruidError> {
    match doc {
        Some(d) => match DruidQueryResponseView::decode_error(d) {
            Some(answer) => DruidError::named_by(answer),
            None => None,
        },
        None => None,
    }
}

/// The submission of queries to one engine.
#[derive(Debug)]
pub struct CathbadClient {
    pub config: CathbadClientConfig,
}

impl CathbadClient {
    /// The address that requests go to: the host's address, a colon, and the
    /// port in decimal.
    pub open spec fn endpoint(&self) -> Seq<char> {
        self.config.druid_endpoint@ + seq![':'] + decimal(self.config.druid_port as nat)
    }

    /// A client for the engine that `config` points to.
    pub fn new(config: CathbadClientConfig) -> (r: CathbadClient)
        ensures
            r.config == config,
    {
        CathbadClient { config }
    }

    /// The address that requests go to.
    pub fn format_endpoint(&self) -> (r: String)
        ensures
            r@ == self.endpoint(),
    {
        proof {
            reveal_strlit(":");
        }
        let mut endpoint = self.config.druid_endpoint.clone();
        endpoint.append(":");
        let port = decimal_text(self.config.druid_port);
        endpoint.append(port.as_str());
        assert(endpoint@ =~= self.endpoint());
        endpoint
    }

    /// Starts the submission of a query. A query that is not valid is turned
    /// down on the spot: nothing is sent for it. A valid one is written as a
    /// text and handed to [`CathbadClient::submit`].
    pub fn begin<Q: TypeConstrainedQuery>(&self, query: &Q) -> (r: Step)
        ensures
            !CathbadClient::accepts(query) ==> r == Step::Done(
                Err(CathbadClientError::InvalidQuery),
            ),
            CathbadClient::accepts(query) ==> (match rendered_text(query.document()) {
                Some(body) => r matches Step::Send(request) && self.posts(request, body),
                None => r matches Step::Done(Err(CathbadClientError::QueryMarshal { .. })),
            }),
    {
        if !query.validate_type() || !query.validate_subcomponents() {
            return Step::Done(Err(CathbadClientError::InvalidQuery));
        }
        let document = query.to_document();
        self.submit(render(&document))
    }

    /// Whether a query is let through: its discriminator fits its shape and
    /// every component it owns is valid.
    pub open spec fn accepts<Q: TypeConstrainedQuery>(query: &Q) -> bool {
        query.type_consistent() && query.subcomponents_valid()
    }

    /// Whether `request` is the one request that carries `body` to this
    /// client's engine.
    pub open spec fn posts(&self, request: Request, body: Seq<char>) -> bool {
        &&& request.endpoint@ == self.endpoint()
        &&& request.content_type@ == media_type()
        &&& request.accept@ == media_type()
        &&& request.body@ == body
    }

    /// What to do with a valid query once it was written as a text: post it,
    /// or give up where it could not be written.
    pub fn submit(&self, rendered: Result<String, serde_json::Error>) -> (r: Step)
        ensures
            match rendered {
                Ok(body) => r matches Step::Send(request) && self.posts(request, body@),
                Err(error) => r == Step::Done(
                    Err(CathbadClientError::QueryMarshal { serde_error: error }),
                ),
            },
    {
        match rendered {
            Ok(body) => Step::Send(
                Request {
                    endpoint: self.format_endpoint(),
                    content_type: "application/json".to_owned(),
                    accept: "application/json".to_owned(),
                    body,
                },
            ),
            Err(error) => Step::Done(Err(CathbadClientError::QueryMarshal { serde_error: error })),
        }
    }

    /// What to do once the status of the answer is known. Success ends the
    /// submission; the body of such an answer is never read. Under the
    /// statuses that name a refusal the body is read next. Any other status
    /// ends the submission as unreadable, whatever the body holds.
    pub fn on_response(status: u16) -> (r: Step)
        ensures
            is_success(status) ==> r == Step::Done(Ok(DruidQueryResponse::Success {  })),
            names_refusal(status) ==> r == Step::ReadBody,
            !is_success(status) && !names_refusal(status) ==> r == Step::Done(
                Err(CathbadClientError::DruidErrorUnmarshal),
            ),
    {
        if 200 <= status && status < 300 {
            Step::Done(Ok(DruidQueryResponse::Success {  }))
        } else if status == 400 || status == 429 || status == 500 || status == 501 || status
            == 504 {
            Step::ReadBody
        } else {
            Step::Done(Err(CathbadClientError::DruidErrorUnmarshal))
        }
    }

    /// What to do once the body of a refusing answer was read: the submission
    /// ends with the kind of refusal that the body names, or as unreadable
    /// where it names none.
    pub fn on_body(body: &str) -> (r: Step)
        ensures
            r == Step::Done(Err(CathbadClient::refusal(refusal_in(parsed_text(body@))))),
    {
        CathbadClient::on_document(parse(body))
    }

    /// The error that ends a refused submission.
    pub open spec fn refusal(kind: Option<DruidError>) -> CathbadClientError {
        match kind {
            Some(druid_error) => CathbadClientError::Druid { druid_error },
            None => CathbadClientError::DruidErrorUnmarshal,
        }
    }

    /// The content of a parsed body, where there is one.
    pub open spec fn parsed_model(parsed: Result<serde_json::Value, serde_json::Error>) -> Option<
        JsonValue,
    > {
        match parsed {
            Ok(v) => Some(value_model(v)),
            Err(_) => None,
        }
    }

    /// What to do once the body of a refusing answer was parsed.
    pub fn on_document(parsed: Result<serde_json::Value, serde_json::Error>) -> (r: Step)
        ensures
            r == Step::Done(
                Err(CathbadClient::refusal(refusal_in(CathbadClient::parsed_model(parsed)))),
            ),
    {
        let document = match parsed {
            Ok(v) => v,
            Err(_) => {
                return Step::Done(Err(CathbadClientError::DruidErrorUnmarshal));
            },
        };
        let answer = match DruidQueryResponse::decode_error(&document) {
            Some(answer) => answer,
            None => {
                return Step::Done(Err(CathbadClientError::DruidErrorUnmarshal));
            },
        };
        match DruidError::try_from(answer) {
            Ok(druid_error) => Step::Done(Err(CathbadClientError::Druid { druid_error })),
            Err(_) => Step::Done(Err(CathbadClientError::DruidErrorUnmarshal)),
        }
    }

    /// What to do when no answer came back: the submission ends with the
    /// failure of the transport.
    pub fn on_failure(error: reqwest::Error) -> (r: Step)
        ensures
            r == Step::Done(Err(CathbadClientError::Reqwest { reqwest_error: error })),
    {
        Step::Done(Err(CathbadClientError::Reqwest { reqwest_error: error }))
    }

    /// How an answer is classified, given its status and its body.
    pub fn classify(status: u16, body: &str) -> (r: Result<DruidQueryResponse, CathbadClientError>)
        ensures
            is_success(status) ==> r == Ok::<DruidQueryResponse, CathbadClientError>(
                DruidQueryResponse::Success {  },
            ),
            names_refusal(status) ==> r == Err::<DruidQueryResponse, CathbadClientError>(
                CathbadClient::refusal(refusal_in(parsed_text(body@))),
            ),
            !is_success(status) && !names_refusal(status) ==> r == Err::<
                DruidQueryResponse,
                CathbadClientError,
            >(CathbadClientError::DruidErrorUnmarshal),
    {
        match CathbadClient::on_response(status) {
            Step::Done(outcome) => outcome,
            _ => match CathbadClient::on_body(body) {
                Step::Done(outcome) => outcome,
                _ => Err(CathbadClientError::DruidErrorUnmarshal),
            },
        }
    }
}

impl Clone for CathbadClient {
    fn clone(&self) -> (r: Self)
        ensures
            r.config.druid_endpoint@ == self.config.druid_endpoint@,
            r.config.druid_port == self.config.druid_port,
    {
        CathbadClient { config: self.config.duplicate() }
    }
}

impl Default for CathbadClient {
    /// A client for the engine on this machine, at its usual port.
    fn default() -> (r: Self)
        ensures
            r.config.druid_endpoint@ == "http://localhost"@,
            r.config.druid_port == 8888,
    {
        CathbadClient::new(CathbadClientConfig::default())
    }
}

} // verus!
