//! The rules of a desktop tool for trying out HTTP APIs: how a stored request
//! definition becomes one outbound call, what is written to the history when
//! the call is answered, and what the caller is told.
//!
//! Nothing here touches the network, the database or the clock. The program
//! around the library performs each outside step and hands the outcome back
//! as a plain value; every decision in between is made, and proved, in this
//! crate.
//!
//! - [`requests`]: creating, changing and listing request definitions.
//! - [`execution`]: one execution of a request, stage by stage.
//! - [`dispatch`]: the call that is sent for a definition.
//! - [`method`]: the methods a call can go out with.
//! - [`model`]: the stored entities.
//! - [`error`]: the ways an operation fails.
//! - [`decimal`]: integers as text.
//! - [`laws`]: what holds of all of the above.

pub mod decimal;
pub mod dispatch;
pub mod error;
pub mod execution;
pub mod laws;
pub mod method;
pub mod model;
pub mod requests;

pub use dispatch::{plan_dispatch, render_headers, response_time, DispatchPlan, Header, Response};
pub use error::ServiceError;
pub use execution::{begin, Loading, Lookup, Recording, Sending};
pub use method::Method;
pub use model::{Request, RequestHistory};
pub use requests::{created, listed, updated, NewRequest, RequestUpdate};
