//! The two stored entities: request definitions and the history of their
//! executions.

use vstd::prelude::*;

verus! {

/// `chrono::NaiveDateTime`, the type of every timestamp the store hands out.
/// The library carries such a value from where it was read to where it is
/// written and never looks inside it.
#[verifier::external_type_specification]
#[verifier::external_body]
pub struct StoredTimestamp(chrono::NaiveDateTime);

/// The text of an optional string, or `None`.
pub open spec fn text_of(value: Option<String>) -> Option<Seq<char>> {
    match value {
        Some(text) => Some(text@),
        None => None,
    }
}

/// A reusable definition of an HTTP call.
#[derive(Debug, PartialEq)]
pub struct Request {
    /// Assigned by the store when the request is created; never changed.
    pub id: i64,
    pub url: String,
    pub name: String,
    /// Free text in the store. See [`crate::method::method_of`] for how it is read.
    pub method: String,
    pub headers: String,
    pub body: Option<String>,
    /// Set by the store when the request is created; never changed.
    pub created_at: chrono::NaiveDateTime,
}

/// What a [`Request`] holds, as mathematical values.
pub struct RequestView {
    pub id: int,
    pub url: Seq<char>,
    pub name: Seq<char>,
    pub method: Seq<char>,
    pub headers: Seq<char>,
    pub body: Option<Seq<char>>,
    pub created_at: chrono::NaiveDateTime,
}

impl View for Request {
    type V = RequestView;

    open spec fn view(&self) -> RequestView {
        RequestView {
            id: self.id as int,
            url: self.url@,
            name: self.name@,
            method: self.method@,
            headers: self.headers@,
            body: text_of(self.body),
            created_at: self.created_at,
        }
    }
}

/// The record of one execution of a request: what was sent and what came
/// back. Records are only ever added.
#[derive(Debug, PartialEq)]
pub struct RequestHistory {
    /// Assigned by the store; `0` in a record that has not been stored yet.
    pub id: i64,
    pub url: String,
    pub request_headers: String,
    pub request_body: Option<String>,
    pub request_method: String,
    pub response_status_code: i64,
    pub response_time_ms: i64,
    pub response_body: String,
    pub created_at: chrono::NaiveDateTime,
    /// The request that was executed.
    pub request_id: i64,
}

/// What a [`RequestHistory`] holds, as mathematical values.
pub struct RequestHistoryView {
    pub id: int,
    pub url: Seq<char>,
    pub request_headers: Seq<char>,
    pub request_body: Option<Seq<char>>,
    pub request_method: Seq<char>,
    pub response_status_code: int,
    pub response_time_ms: int,
    pub response_body: Seq<char>,
    pub created_at: chrono::NaiveDateTime,
    pub request_id: int,
}

impl View for RequestHistory {
    type V = RequestHistoryView;

    open spec fn view(&self) -> RequestHistoryView {
        RequestHistoryView {
            id: self.id as int,
            url: self.url@,
            request_headers: self.request_headers@,
            request_body: text_of(self.request_body),
            request_method: self.request_method@,
            response_status_code: self.response_status_code as int,
            response_time_ms: self.response_time_ms as int,
            response_body: self.response_body@,
            created_at: self.created_at,
            request_id: self.request_id as int,
        }
    }
}

} // verus!
