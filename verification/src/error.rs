//! The three ways an operation can fail, and what the user is shown.

use vstd::prelude::*;
use vstd::string::*;
use crate::decimal::{append_decimal, decimal};

verus! {

/// Why an operation failed.
#[derive(Debug, PartialEq)]
pub enum ServiceError {
    /// No request has this id.
    NotFound(i64),
    /// The outbound call could not be completed. Holds the transport's own
    /// words; its kinds of failure are not told apart.
    Transport(String),
    /// The store refused or failed an operation. Holds the store's own words.
    Store(String),
}

/// What a [`ServiceError`] holds, as mathematical values.
pub enum ServiceErrorView {
    NotFound(int),
    Transport(Seq<char>),
    Store(Seq<char>),
}

impl View for ServiceError {
    type V = ServiceErrorView;

    open spec fn view(&self) -> ServiceErrorView {
        match self {
            ServiceError::NotFound(id) => ServiceErrorView::NotFound(*id as int),
            ServiceError::Transport(message) => ServiceErrorView::Transport(message@),
            ServiceError::Store(message) => ServiceErrorView::Store(message@),
        }
    }
}

/// A result of one of the library's operations, as mathematical values.
pub open spec fn result_view<T: View>(result: Result<T, ServiceError>) -> Result<
    T::V,
    ServiceErrorView,
> {
    match result {
        Ok(value) => Ok(value@),
        Err(error) => Err(error@),
    }
}

/// The store's outcome for one write, as mathematical values: done, or the
/// store's words on why not.
pub open spec fn write_outcome(outcome: Result<(), String>) -> Result<(), Seq<char>> {
    match outcome {
        Ok(done) => Ok(done),
        Err(message) => Err(message@),
    }
}

/// The text shown for an error: the outside component's words as they came,
/// or, for a missing request, a sentence that names its id.
pub open spec fn message_of(error: ServiceErrorView) -> Seq<char> {
    match error {
        ServiceErrorView::NotFound(id) => "Request not found: "@ + decimal(id),
        ServiceErrorView::Transport(message) => message,
        ServiceErrorView::Store(message) => message,
    }
}

impl ServiceError {
    /// The text to show to the user.
    pub fn message(&self) -> (text: String)
        ensures
            text@ == message_of(self@),
    {
        match self {
            ServiceError::NotFound(id) => {
                let mut text = String::from_str("Request not found: ");
                append_decimal(&mut text, *id);
                text
            },
            ServiceError::Transport(message) => message.clone(),
            ServiceError::Store(message) => message.clone(),
        }
    }
}

} // verus!
