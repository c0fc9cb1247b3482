//! API and client-side error types.

use vstd::prelude::*;

use crate::json::{jv, jv_get, obj_get, JVal, JsonValue};

verus! {

/// An error body returned by the service.
#[derive(Debug, Clone, PartialEq)]
pub struct APIError {
    /// Status reported by the service.
    pub status: String,
    /// Cause of the failure.
    pub reason: String,
}

/// The model of an [`APIError`].
pub struct SpecAPIError {
    pub status: Seq<char>,
    pub reason: Seq<char>,
}

impl DeepView for APIError {
    type V = SpecAPIError;

    open spec fn deep_view(&self) -> SpecAPIError {
        SpecAPIError { status: self.status@, reason: self.reason@ }
    }
}

/// The empty error body, used when a failure response carries no
/// recognizable error shape.
pub open spec fn spec_api_error_empty() -> SpecAPIError {
    SpecAPIError { status: Seq::empty(), reason: Seq::empty() }
}

impl Default for APIError {
    /// The empty error body: both fields blank.
    fn default() -> (r: Self)
        ensures
            r.deep_view() == spec_api_error_empty(),
    {
        APIError { status: String::new(), reason: String::new() }
    }
}

impl APIError {
    /// A human-readable rendering: the status line, then the reason line.
    pub fn message(&self) -> (r: String)
        ensures
            r@ == "Status: "@ + self.status@ + "\nReason: "@ + self.reason@,
    {
        let mut s = String::from_str("Status: ");
        s.append(self.status.as_str());
        s.append("\nReason: ");
        s.append(self.reason.as_str());
        s
    }
}

/// Decode an error body: an object with string `status` and `reason` fields;
/// other fields are ignored.
pub open spec fn spec_api_error_from(j: JVal) -> Option<SpecAPIError> {
    match j {
        JVal::Obj(es) => match (jv_get(es, "status"@), jv_get(es, "reason"@)) {
            (Some(JVal::Str(st)), Some(JVal::Str(re))) => Some(
                SpecAPIError { status: st, reason: re },
            ),
            _ => None,
        },
        _ => None,
    }
}

impl APIError {
    /// Decode an error body from a JSON document.
    pub fn from_json(v: &JsonValue) -> (r: Option<APIError>)
        ensures
            match r {
                Some(e) => spec_api_error_from(jv(*v)) == Some(e.deep_view()),
                None => spec_api_error_from(jv(*v)) is None,
            },
    {
        match v {
            JsonValue::Obj(entries) => {
                let status = match obj_get(entries, "status") {
                    Some(JsonValue::Str(s)) => s.clone(),
                    _ => {
                        return None;
                    },
                };
                let reason = match obj_get(entries, "reason") {
                    Some(JsonValue::Str(s)) => s.clone(),
                    _ => {
                        return None;
                    },
                };
                Some(APIError { status, reason })
            },
            _ => None,
        }
    }
}

/// The client-side error taxonomy: everything a call can surface.
#[derive(Debug, Clone)]
pub enum HypothesisError {
    /// The service answered with a recognizable error body; `raw_text` holds
    /// the response text for diagnosis.
    APIError { source: APIError, raw_text: String },
    /// A header value could not be built from the given credentials.
    HeaderError(String),
    /// The transport failed: network, TLS, or timeout.
    ReqwestError(String),
    /// A required environment variable is absent; the suggestion names it.
    EnvironmentError { suggestion: String },
    /// A payload could not be encoded or decoded.
    SerdeError(String),
    /// A computed URL was malformed.
    URLError(String),
    /// A builder was missing a required field.
    BuilderError(String),
}

/// The model of a [`HypothesisError`].
pub enum SpecHypothesisError {
    APIError { source: SpecAPIError, raw_text: Seq<char> },
    HeaderError(Seq<char>),
    ReqwestError(Seq<char>),
    EnvironmentError { suggestion: Seq<char> },
    SerdeError(Seq<char>),
    URLError(Seq<char>),
    BuilderError(Seq<char>),
}

impl DeepView for HypothesisError {
    type V = SpecHypothesisError;

    open spec fn deep_view(&self) -> SpecHypothesisError {
        match self {
            HypothesisError::APIError { source, raw_text } => SpecHypothesisError::APIError {
                source: source.deep_view(),
                raw_text: raw_text@,
            },
            HypothesisError::HeaderError(m) => SpecHypothesisError::HeaderError(m@),
            HypothesisError::ReqwestError(m) => SpecHypothesisError::ReqwestError(m@),
            HypothesisError::EnvironmentError { suggestion } => SpecHypothesisError::EnvironmentError {
                suggestion: suggestion@,
            },
            HypothesisError::SerdeError(m) => SpecHypothesisError::SerdeError(m@),
            HypothesisError::URLError(m) => SpecHypothesisError::URLError(m@),
            HypothesisError::BuilderError(m) => SpecHypothesisError::BuilderError(m@),
        }
    }
}

/// Errors surfaced by the command-line front end.
#[derive(Debug, Clone)]
pub enum CLIError {
    /// Client creation failed.
    AuthorizationError,
    /// A command-line argument did not parse; `types` lists the accepted values.
    ParseError { name: String, types: Vec<String> },
}

/// The model of a [`CLIError`].
pub enum SpecCLIError {
    AuthorizationError,
    ParseError { name: Seq<char>, types: Seq<Seq<char>> },
}

impl DeepView for CLIError {
    type V = SpecCLIError;

    open spec fn deep_view(&self) -> SpecCLIError {
        match self {
            CLIError::AuthorizationError => SpecCLIError::AuthorizationError,
            CLIError::ParseError { name, types } => SpecCLIError::ParseError {
                name: name@,
                types: types.deep_view(),
            },
        }
    }
}

} // verus!
