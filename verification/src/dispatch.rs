//! From a request definition to the one call that is sent for it, and the
//! shape of what comes back.

use vstd::prelude::*;
use vstd::string::*;
use crate::method::{carries_body, method_of, Method};
use crate::model::{text_of, Request, RequestView};

verus! {

/// One header of an outbound call.
#[derive(Debug, PartialEq)]
pub struct Header {
    pub name: String,
    pub value: String,
}

/// What a [`Header`] holds, as mathematical values.
pub struct HeaderView {
    pub name: Seq<char>,
    pub value: Seq<char>,
}

impl View for Header {
    type V = HeaderView;

    open spec fn view(&self) -> HeaderView {
        HeaderView { name: self.name@, value: self.value@ }
    }
}

/// The headers of a list, in order, as mathematical values.
pub open spec fn headers_of(headers: Seq<Header>) -> Seq<HeaderView> {
    headers.map_values(|header: Header| header@)
}

/// Everything the transport needs for one call: it sends exactly this and
/// adds nothing of its own from the request definition.
#[derive(Debug, PartialEq)]
pub struct DispatchPlan {
    pub method: Method,
    pub url: String,
    pub headers: Vec<Header>,
    /// `None` where the call is sent without a body.
    pub body: Option<String>,
}

/// What a [`DispatchPlan`] holds, as mathematical values.
pub struct DispatchPlanView {
    pub method: Method,
    pub url: Seq<char>,
    pub headers: Seq<HeaderView>,
    pub body: Option<Seq<char>>,
}

impl View for DispatchPlan {
    type V = DispatchPlanView;

    open spec fn view(&self) -> DispatchPlanView {
        DispatchPlanView {
            method: self.method,
            url: self.url@,
            headers: headers_of(self.headers@),
            body: text_of(self.body),
        }
    }
}

/// The one header that a call with a body is sent with, whatever headers the
/// request definition stores.
pub open spec fn json_content_type() -> HeaderView {
    HeaderView { name: "Content-Type"@, value: "application/json"@ }
}

/// The call that is sent for a request definition.
///
/// The stored method is read with [`method_of`], so text that is not
/// recognized gives the same call as `GET`. The URL is taken as stored. Only
/// a method that carries a body sends one: the stored body, or the empty
/// string where none is stored, under the header [`json_content_type`]. Every
/// other call has neither body nor headers.
pub open spec fn plan_for(request: RequestView) -> DispatchPlanView {
    let method = method_of(request.method);
    if carries_body(method) {
        DispatchPlanView {
            method,
            url: request.url,
            headers: seq![json_content_type()],
            body: Some(
                match request.body {
                    Some(body) => body,
                    None => Seq::empty(),
                },
            ),
        }
    } else {
        DispatchPlanView { method, url: request.url, headers: Seq::empty(), body: None }
    }
}

/// Plans the call for a request definition.
pub fn plan_dispatch(request: Request) -> (plan: DispatchPlan)
    ensures
        plan@ == plan_for(request@),
{
    let method = Method::parse(&request.method);
    if method.has_body() {
        let body = match request.body {
            Some(body) => body,
            None => String::new(),
        };
        let mut headers: Vec<Header> = Vec::new();
        headers.push(
            Header {
                name: String::from_str("Content-Type"),
                value: String::from_str("application/json"),
            },
        );
        assert(headers_of(headers@) =~= seq![json_content_type()]);
        DispatchPlan { method, url: request.url, headers, body: Some(body) }
    } else {
        let headers: Vec<Header> = Vec::new();
        assert(headers_of(headers@) =~= Seq::<HeaderView>::empty());
        DispatchPlan { method, url: request.url, headers, body: None }
    }
}

/// One header as a line of text: its name, a colon and a space, its value.
pub open spec fn header_line(header: HeaderView) -> Seq<char> {
    header.name + ": "@ + header.value
}

/// A header list as text: one line per header, in order, with a line feed
/// between two lines and none at the end. No header gives the empty text.
pub open spec fn header_lines(headers: Seq<HeaderView>) -> Seq<char>
    decreases headers.len(),
{
    if headers.len() == 0 {
        Seq::empty()
    } else if headers.len() == 1 {
        header_line(headers[0])
    } else {
        header_lines(headers.drop_last()) + "\n"@ + header_line(headers.last())
    }
}

/// Writes a header list out as text, for the history.
pub fn render_headers(headers: &Vec<Header>) -> (text: String)
    ensures
        text@ == header_lines(headers_of(headers@)),
{
    let ghost all = headers_of(headers@);
    let mut text = String::new();
    let mut i: usize = 0;
    while i < headers.len()
        invariant
            i <= headers.len(),
            all == headers_of(headers@),
            text@ == header_lines(all.take(i as int)),
        decreases headers.len() - i,
    {
        let ghost before = all.take(i as int);
        let ghost now = all.take(i + 1);
        proof {
            assert(now.drop_last() =~= before);
            assert(now.last() == headers@[i as int]@);
            assert(now.len() == i + 1);
        }
        if i > 0 {
            text.append("\n");
        }
        text.append(headers[i].name.as_str());
        text.append(": ");
        text.append(headers[i].value.as_str());
        proof {
            let line = header_line(headers@[i as int]@);
            if i == 0 {
                assert(before =~= Seq::<HeaderView>::empty());
                assert(text@ =~= line);
            } else {
                assert(text@ =~= header_lines(before) + "\n"@ + line);
            }
        }
        i = i + 1;
    }
    assert(all.take(i as int) =~= all);
    text
}

/// What the transport hands back for a call that was answered.
#[derive(Debug, PartialEq)]
pub struct Response {
    /// The HTTP status of the answer.
    pub status_code: u16,
    /// The answer's body, as it came.
    pub body: String,
    /// The time the call took, in whole milliseconds.
    pub elapsed_ms: u128,
}

/// What a [`Response`] holds, as mathematical values.
pub struct ResponseView {
    pub status_code: int,
    pub body: Seq<char>,
    pub elapsed_ms: int,
}

impl View for Response {
    type V = ResponseView;

    open spec fn view(&self) -> ResponseView {
        ResponseView {
            status_code: self.status_code as int,
            body: self.body@,
            elapsed_ms: self.elapsed_ms as int,
        }
    }
}

/// The elapsed time as the history holds it: the measured milliseconds, or
/// the largest value the history can hold where the measurement is larger.
pub open spec fn recorded_millis(elapsed_ms: int) -> int {
    if elapsed_ms > i64::MAX {
        i64::MAX as int
    } else {
        elapsed_ms
    }
}

/// Brings a measured time into the range of the history's column.
pub fn response_time(elapsed_ms: u128) -> (millis: i64)
    ensures
        millis == recorded_millis(elapsed_ms as int),
        millis >= 0,
{
    if elapsed_ms > 0x7fff_ffff_ffff_ffffu128 {
        i64::MAX
    } else {
        elapsed_ms as i64
    }
}

} // verus!
