//! One execution of a stored request, from the lookup of its definition to
//! the body handed back to the caller.
//!
//! An execution passes through three stages, each waiting for one outside
//! step: the store looks the request up, the transport makes the call, the
//! store writes the history entry. Each stage is a value. The caller performs
//! the step that the stage names and hands the outcome to the stage, which
//! yields the next stage or the error that ends the execution. A stage can
//! only be had from the step before it and is used up by its own, so no step
//! can be skipped, taken twice or taken out of turn.

use vstd::prelude::*;
use vstd::string::*;
use crate::dispatch::{
    header_lines, plan_dispatch, plan_for, recorded_millis, render_headers, response_time,
    DispatchPlan, DispatchPlanView, Response, ResponseView,
};
use crate::error::{result_view, write_outcome, ServiceError, ServiceErrorView};
use crate::method::method_name;
use crate::model::{Request, RequestHistory, RequestHistoryView, RequestView};

verus! {

/// The store's answer to the lookup of one request by its id.
#[derive(Debug, PartialEq)]
pub enum Lookup {
    /// The request's definition.
    Found(Request),
    /// No request has the id.
    Missing,
    /// The store failed; its own words.
    Failed(String),
}

/// What a [`Lookup`] holds, as mathematical values.
pub enum LookupView {
    Found(RequestView),
    Missing,
    Failed(Seq<char>),
}

impl View for Lookup {
    type V = LookupView;

    open spec fn view(&self) -> LookupView {
        match self {
            Lookup::Found(request) => LookupView::Found(request@),
            Lookup::Missing => LookupView::Missing,
            Lookup::Failed(message) => LookupView::Failed(message@),
        }
    }
}

/// The transport's outcome for one call, as mathematical values: the answer,
/// or the transport's words on why there is none.
pub open spec fn call_outcome(outcome: Result<Response, String>) -> Result<
    ResponseView,
    Seq<char>,
> {
    match outcome {
        Ok(response) => Ok(response@),
        Err(message) => Err(message@),
    }
}

/// First stage: the request with this id is to be looked up.
#[derive(Debug, PartialEq)]
pub struct Loading {
    request_id: i32,
}

/// What a [`Loading`] holds, as mathematical values.
pub struct LoadingView {
    pub request_id: int,
}

impl View for Loading {
    type V = LoadingView;

    closed spec fn view(&self) -> LoadingView {
        LoadingView { request_id: self.request_id as int }
    }
}

/// Second stage: the planned call is to be sent, and timed.
#[derive(Debug, PartialEq)]
pub struct Sending {
    request_id: i32,
    plan: DispatchPlan,
}

/// What a [`Sending`] holds, as mathematical values.
pub struct SendingView {
    pub request_id: int,
    pub plan: DispatchPlanView,
}

impl View for Sending {
    type V = SendingView;

    closed spec fn view(&self) -> SendingView {
        SendingView { request_id: self.request_id as int, plan: self.plan@ }
    }
}

/// Third stage: the entry is to be added to the history.
#[derive(Debug, PartialEq)]
pub struct Recording {
    entry: RequestHistory,
}

/// What a [`Recording`] holds, as mathematical values.
pub struct RecordingView {
    pub entry: RequestHistoryView,
}

impl View for Recording {
    type V = RecordingView;

    closed spec fn view(&self) -> RecordingView {
        RecordingView { entry: self.entry@ }
    }
}

/// Where an execution stands once the store has answered the lookup: ready
/// to send the call planned for the definition that was found, or ended,
/// with `NotFound` where there is no such request and `Store` where the
/// store failed.
pub open spec fn after_lookup(loading: LoadingView, lookup: LookupView) -> Result<
    SendingView,
    ServiceErrorView,
> {
    match lookup {
        LookupView::Found(request) => Ok(
            SendingView { request_id: loading.request_id, plan: plan_for(request) },
        ),
        LookupView::Missing => Err(ServiceErrorView::NotFound(loading.request_id)),
        LookupView::Failed(message) => Err(ServiceErrorView::Store(message)),
    }
}

/// The history entry for an answered call. It holds what was sent, taken
/// from the plan and not from the stored definition: the URL, the headers as
/// text, the body, and the name of the method the call went out with. It
/// holds what came back: status, body and time taken. It belongs to the
/// request the execution was started for. Its id is `0` until the store
/// assigns one.
pub open spec fn entry_for(
    sending: SendingView,
    response: ResponseView,
    now: chrono::NaiveDateTime,
) -> RequestHistoryView {
    RequestHistoryView {
        id: 0,
        url: sending.plan.url,
        request_headers: header_lines(sending.plan.headers),
        request_body: sending.plan.body,
        request_method: method_name(sending.plan.method),
        response_status_code: response.status_code,
        response_time_ms: recorded_millis(response.elapsed_ms),
        response_body: response.body,
        created_at: now,
        request_id: sending.request_id,
    }
}

/// Where an execution stands once the transport is done: with an entry to
/// record where the call was answered, whatever the status of the answer,
/// and ended with `Transport`, and nothing to record, where it was not.
pub open spec fn after_call(
    sending: SendingView,
    outcome: Result<ResponseView, Seq<char>>,
    now: chrono::NaiveDateTime,
) -> Result<RecordingView, ServiceErrorView> {
    match outcome {
        Ok(response) => Ok(RecordingView { entry: entry_for(sending, response, now) }),
        Err(message) => Err(ServiceErrorView::Transport(message)),
    }
}

/// What the caller of an execution gets once the store is done with the
/// entry: the body of the answer as it came, or `Store` where the entry
/// could not be written.
pub open spec fn after_write(recording: RecordingView, outcome: Result<(), Seq<char>>) -> Result<
    Seq<char>,
    ServiceErrorView,
> {
    match outcome {
        Ok(_) => Ok(recording.entry.response_body),
        Err(message) => Err(ServiceErrorView::Store(message)),
    }
}

/// Starts the execution of the request with the given id.
pub fn begin(request_id: i32) -> (loading: Loading)
    ensures
        loading@ == (LoadingView { request_id: request_id as int }),
{
    Loading { request_id }
}

impl Loading {
    /// The id of the request to look up.
    pub fn request_id(&self) -> (id: i32)
        ensures
            id == self@.request_id,
    {
        self.request_id
    }

    /// Takes the store's answer to the lookup.
    pub fn loaded(self, lookup: Lookup) -> (next: Result<Sending, ServiceError>)
        ensures
            result_view(next) == after_lookup(self@, lookup@),
    {
        match lookup {
            Lookup::Found(request) => Ok(
                Sending { request_id: self.request_id, plan: plan_dispatch(request) },
            ),
            Lookup::Missing => Err(ServiceError::NotFound(self.request_id as i64)),
            Lookup::Failed(message) => Err(ServiceError::Store(message)),
        }
    }
}

impl Sending {
    /// The id of the request that is being executed.
    pub fn request_id(&self) -> (id: i32)
        ensures
            id == self@.request_id,
    {
        self.request_id
    }

    /// The call to send.
    pub fn plan(&self) -> (plan: &DispatchPlan)
        ensures
            plan@ == self@.plan,
    {
        &self.plan
    }

    /// Takes the transport's outcome for the planned call, and the time at
    /// which it was taken.
    pub fn answered(
        self,
        outcome: Result<Response, String>,
        now: chrono::NaiveDateTime,
    ) -> (next: Result<Recording, ServiceError>)
        ensures
            result_view(next) == after_call(self@, call_outcome(outcome), now),
    {
        match outcome {
            Ok(response) => {
                let request_headers = render_headers(&self.plan.headers);
                let request_method = self.plan.method.name();
                let entry = RequestHistory {
                    id: 0,
                    url: self.plan.url,
                    request_headers,
                    request_body: self.plan.body,
                    request_method,
                    response_status_code: response.status_code as i64,
                    response_time_ms: response_time(response.elapsed_ms),
                    response_body: response.body,
                    created_at: now,
                    request_id: self.request_id as i64,
                };
                Ok(Recording { entry })
            },
            Err(message) => Err(ServiceError::Transport(message)),
        }
    }
}

impl Recording {
    /// The entry to add to the history.
    pub fn entry(&self) -> (entry: &RequestHistory)
        ensures
            entry@ == self@.entry,
    {
        &self.entry
    }

    /// Takes the store's outcome for the entry and ends the execution.
    pub fn stored(self, outcome: Result<(), String>) -> (result: Result<String, ServiceError>)
        ensures
            result_view(result) == after_write(self@, write_outcome(outcome)),
    {
        match outcome {
            Ok(_) => Ok(self.entry.response_body),
            Err(message) => Err(ServiceError::Store(message)),
        }
    }
}

} // verus!
