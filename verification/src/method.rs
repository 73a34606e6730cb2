//! The closed set of HTTP methods that a call can be dispatched with.

use vstd::prelude::*;
use vstd::string::*;

verus! {

/// A method the dispatcher knows how to send.
#[derive(Clone, Copy, Debug, PartialEq, Eq, Structural)]
pub enum Method {
    Get,
    Post,
    Put,
    Delete,
}

/// Whether `text` spells one of the four methods, letter for letter.
pub open spec fn is_recognized(text: Seq<char>) -> bool {
    text == "GET"@ || text == "POST"@ || text == "PUT"@ || text == "DELETE"@
}

/// The method that stored text stands for. Anything that is not one of the
/// four names, in upper case, stands for `Get`.
pub open spec fn method_of(text: Seq<char>) -> Method {
    if text == "POST"@ {
        Method::Post
    } else if text == "PUT"@ {
        Method::Put
    } else if text == "DELETE"@ {
        Method::Delete
    } else {
        Method::Get
    }
}

/// The name under which a method is stored and sent.
pub open spec fn method_name(method: Method) -> Seq<char> {
    match method {
        Method::Get => "GET"@,
        Method::Post => "POST"@,
        Method::Put => "PUT"@,
        Method::Delete => "DELETE"@,
    }
}

/// Whether a call with this method carries the request's body.
pub open spec fn carries_body(method: Method) -> bool {
    method == Method::Post
}

/// The four names are pairwise different, so each method is read back from
/// its own name.
pub proof fn lemma_name_round_trips(method: Method)
    ensures
        is_recognized(method_name(method)),
        method_of(method_name(method)) == method,
{
    reveal_strlit("GET");
    reveal_strlit("POST");
    reveal_strlit("PUT");
    reveal_strlit("DELETE");
    match method {
        Method::Get => {
            assert("GET"@.len() == 3 && "GET"@[0] == 'G');
            assert("POST"@.len() == 4);
            assert("PUT"@[0] == 'P');
            assert("DELETE"@.len() == 6);
        },
        Method::Post => {},
        Method::Put => {
            assert("PUT"@.len() == 3);
            assert("POST"@.len() == 4);
        },
        Method::Delete => {
            assert("DELETE"@.len() == 6);
            assert("POST"@.len() == 4);
            assert("PUT"@.len() == 3);
        },
    }
}

fn is_text(text: &String, literal: &str) -> (same: bool)
    ensures
        same == (text@ == literal@),
{
    let other = String::from_str(literal);
    *text == other
}

impl Method {
    /// Reads a stored method. Text that is not recognized is read as `Get`,
    /// without an error.
    pub fn parse(text: &String) -> (method: Method)
        ensures
            method == method_of(text@),
    {
        if is_text(text, "POST") {
            Method::Post
        } else if is_text(text, "PUT") {
            Method::Put
        } else if is_text(text, "DELETE") {
            Method::Delete
        } else {
            Method::Get
        }
    }

    /// The method's name, as it is stored and sent.
    pub fn name(&self) -> (text: String)
        ensures
            text@ == method_name(*self),
    {
        match self {
            Method::Get => String::from_str("GET"),
            Method::Post => String::from_str("POST"),
            Method::Put => String::from_str("PUT"),
            Method::Delete => String::from_str("DELETE"),
        }
    }

    /// Whether a call with this method carries the request's body: only
    /// `Post` does.
    pub fn has_body(&self) -> (carries: bool)
        ensures
            carries == carries_body(*self),
    {
        match self {
            Method::Post => true,
            _ => false,
        }
    }
}

} // verus!
