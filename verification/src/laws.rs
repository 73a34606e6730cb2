//! What holds of every execution and of every change to a request, stated
//! over the functions that define them.

use vstd::prelude::*;
use crate::dispatch::{header_lines, plan_for, recorded_millis, ResponseView};
use crate::error::ServiceErrorView;
use crate::execution::{
    after_call, after_lookup, after_write, entry_for, LoadingView, LookupView, SendingView,
};
use crate::method::{is_recognized, lemma_name_round_trips, method_name, method_of, Method};
use crate::model::RequestView;
use crate::requests::{new_request, update_for};

verus! {

/// A request whose stored method is not one of the four names is sent
/// exactly as if its method were `GET`: with the method `Get`, to the same
/// URL, without body and without headers, whatever body it stores.
pub proof fn lemma_unrecognized_method_is_sent_as_get(request: RequestView)
    requires
        !is_recognized(request.method),
    ensures
        plan_for(request) == plan_for(
            RequestView { method: method_name(Method::Get), ..request },
        ),
        plan_for(request).method == Method::Get,
        plan_for(request).url == request.url,
        plan_for(request).body is None,
        plan_for(request).headers.len() == 0,
{
    lemma_name_round_trips(Method::Get);
}

/// Only `POST` sends a body. `PUT` and `DELETE` go out under their own
/// method, without body and without headers, like `GET`.
pub proof fn lemma_only_post_sends_a_body(request: RequestView)
    ensures
        plan_for(request).body is Some <==> request.method == method_name(Method::Post),
        plan_for(request).body is None ==> plan_for(request).headers.len() == 0,
        plan_for(request).body matches Some(body) ==> body == match request.body {
            Some(stored) => stored,
            None => Seq::<char>::empty(),
        },
{
    lemma_name_round_trips(Method::Post);
}

/// An execution whose request is found, whose call is answered and whose
/// entry is written hands back the answer's body as it came. It records one
/// entry, for the request it was started for, with the answer's status and
/// body and with a time taken that is not negative.
pub proof fn lemma_answered_call_is_recorded_and_returned(
    loading: LoadingView,
    request: RequestView,
    response: ResponseView,
    now: chrono::NaiveDateTime,
)
    requires
        response.elapsed_ms >= 0,
    ensures
        after_lookup(loading, LookupView::Found(request)) matches Ok(sending) && after_call(
            sending,
            Ok(response),
            now,
        ) matches Ok(recording) && {
            &&& recording.entry.request_id == loading.request_id
            &&& recording.entry.response_status_code == response.status_code
            &&& recording.entry.response_body == response.body
            &&& recording.entry.response_time_ms >= 0
            &&& after_write(recording, Ok(())) matches Ok(body) && body == response.body
        },
{
}

/// The time taken is recorded as measured wherever the history can hold it,
/// and is never recorded as negative.
pub proof fn lemma_recorded_time(elapsed_ms: int)
    requires
        elapsed_ms >= 0,
    ensures
        0 <= recorded_millis(elapsed_ms) <= i64::MAX,
        elapsed_ms <= i64::MAX ==> recorded_millis(elapsed_ms) == elapsed_ms,
{
}

/// A call that the transport could not complete ends the execution with
/// `Transport` and the transport's words. The execution never reaches the
/// stage that holds an entry, so nothing is written to the history.
pub proof fn lemma_failed_call_records_nothing(
    sending: SendingView,
    message: Seq<char>,
    now: chrono::NaiveDateTime,
)
    ensures
        after_call(sending, Err(message), now) matches Err(error) && error
            == ServiceErrorView::Transport(message),
{
}

/// An entry is recorded exactly for the calls that were answered.
pub proof fn lemma_entry_iff_answered(
    sending: SendingView,
    outcome: Result<ResponseView, Seq<char>>,
    now: chrono::NaiveDateTime,
)
    ensures
        after_call(sending, outcome, now) is Ok <==> outcome is Ok,
{
}

/// The entry names the method that the call went out with, which for a
/// request with an unrecognized method is `GET` and not the stored text. It
/// holds the URL, the body and the headers of the call as sent.
pub proof fn lemma_entry_snapshots_the_call(
    loading: LoadingView,
    request: RequestView,
    response: ResponseView,
    now: chrono::NaiveDateTime,
)
    ensures
        after_lookup(loading, LookupView::Found(request)) matches Ok(sending) && {
            let entry = entry_for(sending, response, now);
            &&& sending.plan == plan_for(request)
            &&& entry.request_method == method_name(method_of(request.method))
            &&& method_of(entry.request_method) == sending.plan.method
            &&& entry.url == sending.plan.url
            &&& entry.request_body == sending.plan.body
            &&& entry.request_headers == header_lines(sending.plan.headers)
            &&& !is_recognized(request.method) ==> entry.request_method == method_name(
                Method::Get,
            )
        },
{
    lemma_name_round_trips(method_of(request.method));
}

/// A request that does not exist, or that the store fails to look up, ends
/// the execution before any call is planned.
pub proof fn lemma_no_call_without_request(loading: LoadingView, lookup: LookupView)
    ensures
        after_lookup(loading, lookup) is Ok <==> lookup is Found,
        lookup is Missing ==> (after_lookup(loading, lookup) matches Err(error) && error
            == ServiceErrorView::NotFound(loading.request_id)),
{
}

/// A request is created under the name the caller gave, with the method
/// `GET`, and with nothing else filled in.
pub proof fn lemma_new_request_defaults(name: Seq<char>)
    ensures
        new_request(name).name == name,
        new_request(name).method == method_name(Method::Get),
        method_of(new_request(name).method) == Method::Get,
        new_request(name).url.len() == 0,
        new_request(name).headers.len() == 0,
        new_request(name).body is None,
{
    lemma_name_round_trips(Method::Get);
}

/// An update carries the caller's URL, name, method, headers and body as
/// given and is addressed by the id the caller named. The id and the time of
/// creation that came with the values have no part in it: two sets of values
/// that differ only there give the same update.
pub proof fn lemma_update_carries_only_editable_fields(
    request_id: int,
    values: RequestView,
    other_id: int,
    other_created_at: chrono::NaiveDateTime,
)
    ensures
        update_for(request_id, values).request_id == request_id,
        update_for(request_id, values).url == values.url,
        update_for(request_id, values).name == values.name,
        update_for(request_id, values).method == values.method,
        update_for(request_id, values).headers == values.headers,
        update_for(request_id, values).body == values.body,
        update_for(request_id, values) == update_for(
            request_id,
            RequestView { id: other_id, created_at: other_created_at, ..values },
        ),
{
}

} // verus!
