//! What the engine answers when it refuses a query.

use vstd::prelude::*;
use crate::json::{value_model, JsonValue};
use crate::wire::{copy_opt_text, opt_text_at, read_opt_text, read_text, text_at, Field};

verus! {

/// The engine's answer to a query, as far as this crate reads it.
#[derive(Debug, PartialEq, Eq)]
pub enum DruidQueryResponse {
    /// The query was accepted and run. What it returned is not read.
    Success {},
    /// The query was refused. `error` names the kind of refusal.
    Error {
        error: String,
        error_message: Option<String>,
        error_class: Option<String>,
        host: Option<String>,
    },
}

/// What an answer holds, as mathematics sees it.
pub enum DruidQueryResponseView {
    Success {},
    Error {
        error: Seq<char>,
        error_message: Option<Seq<char>>,
        error_class: Option<Seq<char>>,
        host: Option<Seq<char>>,
    },
}

impl DruidQueryResponse {
    /// What this answer holds.
    pub open spec fn model(&self) -> DruidQueryResponseView {
        match self {
            DruidQueryResponse::Success {} => DruidQueryResponseView::Success {},
            DruidQueryResponse::Error { error, error_message, error_class, host } => {
                DruidQueryResponseView::Error {
                    error: error@,
                    error_message: error_message.deep_view(),
                    error_class: error_class.deep_view(),
                    host: host.deep_view(),
                }
            },
        }
    }
}

impl View for DruidQueryResponse {
    type V = DruidQueryResponseView;

    open spec fn view(&self) -> DruidQueryResponseView {
        self.model()
    }
}

impl DeepView for DruidQueryResponse {
    type V = DruidQueryResponseView;

    open spec fn deep_view(&self) -> DruidQueryResponseView {
        self.model()
    }
}

impl DruidQueryResponseView {
    /// The refusal that a document stands for: a JSON object whose `error`
    /// member is a string, and whose `errorMessage`, `errorClass` and `host`
    /// members are strings where they are there. No other document stands for
    /// a refusal.
    pub open spec fn decode_error(doc: JsonValue) -> Option<DruidQueryResponseView> {
        match (
            text_at(doc, Field::Error),
            opt_text_at(doc, Field::ErrorMessage),
            opt_text_at(doc, Field::ErrorClass),
            opt_text_at(doc, Field::Host),
        ) {
            (Some(error), Some(error_message), Some(error_class), Some(host)) => {
                Some(DruidQueryResponseView::Error { error, error_message, error_class, host })
            },
            _ => None,
        }
    }
}

impl DruidQueryResponse {
    /// A copy of this answer.
    pub fn duplicate(&self) -> (r: DruidQueryResponse)
        ensures
            r@ == self@,
    {
        match self {
            DruidQueryResponse::Success {  } => DruidQueryResponse::Success {  },
            DruidQueryResponse::Error { error, error_message, error_class, host } => {
                DruidQueryResponse::Error {
                    error: error.clone(),
                    error_message: copy_opt_text(error_message),
                    error_class: copy_opt_text(error_class),
                    host: copy_opt_text(host),
                }
            },
        }
    }

    /// Reads the refusal that a document stands for. Gives `None` where the
    /// document stands for none.
    pub fn decode_error(v: &serde_json::Value) -> (r: Option<DruidQueryResponse>)
        ensures
            r.deep_view() == DruidQueryResponseView::decode_error(value_model(*v)),
    {
        Some(DruidQueryResponse::Error {
            error: read_text(v, Field::Error)?,
            error_message: read_opt_text(v, Field::ErrorMessage)?,
            error_class: read_opt_text(v, Field::ErrorClass)?,
            host: read_opt_text(v, Field::Host)?,
        })
    }
}

impl Clone for DruidQueryResponse {
    fn clone(&self) -> (r: Self)
        ensures
            r@ == self@,
    {
        self.duplicate()
    }
}

} // verus!
