//! Creating, changing and listing request definitions: what is written to the
//! store, and what the caller is told once the store has answered.

use vstd::prelude::*;
use vstd::string::*;
use crate::decimal::{append_decimal, decimal};
use crate::error::{result_view, write_outcome, ServiceError, ServiceErrorView};
use crate::method::{method_name, Method};
use crate::model::{text_of, Request, RequestView};

verus! {

/// The row written for a request that is being created. The store adds the
/// id and the time of creation.
#[derive(Debug, PartialEq)]
pub struct NewRequest {
    pub name: String,
    pub url: String,
    pub method: String,
    pub headers: String,
    pub body: Option<String>,
}

/// What a [`NewRequest`] holds, as mathematical values.
pub struct NewRequestView {
    pub name: Seq<char>,
    pub url: Seq<char>,
    pub method: Seq<char>,
    pub headers: Seq<char>,
    pub body: Option<Seq<char>>,
}

impl View for NewRequest {
    type V = NewRequestView;

    open spec fn view(&self) -> NewRequestView {
        NewRequestView {
            name: self.name@,
            url: self.url@,
            method: self.method@,
            headers: self.headers@,
            body: text_of(self.body),
        }
    }
}

/// A request as it is created: under the given name, with the method `GET`,
/// and with the URL, the headers and the body still to be filled in.
pub open spec fn new_request(name: Seq<char>) -> NewRequestView {
    NewRequestView {
        name,
        url: Seq::empty(),
        method: method_name(Method::Get),
        headers: Seq::empty(),
        body: None,
    }
}

impl NewRequest {
    /// The row for a new request with the given name.
    pub fn named(name: &str) -> (row: NewRequest)
        ensures
            row@ == new_request(name@),
    {
        NewRequest {
            name: String::from_str(name),
            url: String::new(),
            method: Method::Get.name(),
            headers: String::new(),
            body: None,
        }
    }
}

/// What the caller is told about a creation: the empty text where the row
/// was written, `Store` with the store's words where it was not.
pub open spec fn creation_result(outcome: Result<(), Seq<char>>) -> Result<
    Seq<char>,
    ServiceErrorView,
> {
    match outcome {
        Ok(_) => Ok(Seq::empty()),
        Err(message) => Err(ServiceErrorView::Store(message)),
    }
}

/// Takes the store's outcome for the insertion of a new request.
pub fn created(outcome: Result<(), String>) -> (result: Result<String, ServiceError>)
    ensures
        result_view(result) == creation_result(write_outcome(outcome)),
{
    match outcome {
        Ok(_) => Ok(String::new()),
        Err(message) => Err(ServiceError::Store(message)),
    }
}

/// The values written over the request with id `request_id`. A request's id
/// and time of creation are not among them: an update cannot change either.
#[derive(Debug, PartialEq)]
pub struct RequestUpdate {
    pub request_id: i32,
    pub url: String,
    pub name: String,
    pub method: String,
    pub headers: String,
    pub body: Option<String>,
}

/// What a [`RequestUpdate`] holds, as mathematical values.
pub struct RequestUpdateView {
    pub request_id: int,
    pub url: Seq<char>,
    pub name: Seq<char>,
    pub method: Seq<char>,
    pub headers: Seq<char>,
    pub body: Option<Seq<char>>,
}

impl View for RequestUpdate {
    type V = RequestUpdateView;

    open spec fn view(&self) -> RequestUpdateView {
        RequestUpdateView {
            request_id: self.request_id as int,
            url: self.url@,
            name: self.name@,
            method: self.method@,
            headers: self.headers@,
            body: text_of(self.body),
        }
    }
}

/// The update that writes the caller's values over the request with id
/// `request_id`. The five fields that can change are taken as the caller
/// gave them. The id and the time of creation that came with them are
/// dropped.
pub open spec fn update_for(request_id: int, values: RequestView) -> RequestUpdateView {
    RequestUpdateView {
        request_id,
        url: values.url,
        name: values.name,
        method: values.method,
        headers: values.headers,
        body: values.body,
    }
}

impl RequestUpdate {
    /// The update of the request with id `request_id` to the values the
    /// caller sent.
    pub fn new(request_id: i32, values: Request) -> (update: RequestUpdate)
        ensures
            update@ == update_for(request_id as int, values@),
    {
        RequestUpdate {
            request_id,
            url: values.url,
            name: values.name,
            method: values.method,
            headers: values.headers,
            body: values.body,
        }
    }
}

/// The store's outcome for an update, as mathematical values: the number of
/// rows it changed, or its words on why it failed.
pub open spec fn update_outcome(outcome: Result<u64, String>) -> Result<int, Seq<char>> {
    match outcome {
        Ok(rows) => Ok(rows as int),
        Err(message) => Err(message@),
    }
}

/// The sentence that confirms an update.
pub open spec fn update_confirmation(request_id: int) -> Seq<char> {
    "Updated request: "@ + decimal(request_id) + "!"@
}

/// What the caller is told about an update: the confirmation where a row
/// was changed, `NotFound` where the store changed none because no request
/// has the id, `Store` with the store's words where it failed.
pub open spec fn update_result(request_id: int, outcome: Result<int, Seq<char>>) -> Result<
    Seq<char>,
    ServiceErrorView,
> {
    match outcome {
        Ok(rows) => if rows == 0 {
            Err(ServiceErrorView::NotFound(request_id))
        } else {
            Ok(update_confirmation(request_id))
        },
        Err(message) => Err(ServiceErrorView::Store(message)),
    }
}

/// Takes the store's outcome for the update of the request with id
/// `request_id`.
pub fn updated(request_id: i32, outcome: Result<u64, String>) -> (result: Result<
    String,
    ServiceError,
>)
    ensures
        result_view(result) == update_result(request_id as int, update_outcome(outcome)),
{
    match outcome {
        Ok(rows) => {
            if rows == 0 {
                Err(ServiceError::NotFound(request_id as i64))
            } else {
                let mut text = String::from_str("Updated request: ");
                append_decimal(&mut text, request_id as i64);
                text.append("!");
                Ok(text)
            }
        },
        Err(message) => Err(ServiceError::Store(message)),
    }
}

/// Takes the store's outcome for a listing, of all requests or of one
/// request's history. The rows are handed on as the store gave them, in its
/// order and none left out; a listing without rows is a success like any
/// other. Where the store failed, the result is `Store` with its words.
pub fn listed<T>(outcome: Result<Vec<T>, String>) -> (result: Result<Vec<T>, ServiceError>)
    ensures
        match outcome {
            Ok(rows) => result == Ok::<Vec<T>, ServiceError>(rows),
            Err(message) => result matches Err(error) && error@ == ServiceErrorView::Store(
                message@,
            ),
        },
{
    match outcome {
        Ok(rows) => Ok(rows),
        Err(message) => Err(ServiceError::Store(message)),
    }
}

} // verus!
