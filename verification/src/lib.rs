//! The decisions of an HTTP request dispatcher, apart from the transport.
//!
//! A dispatch builds one call from a method selector, an address and an
//! optional payload ([`request`]), hands it to a transport, and turns what the
//! transport answers into a success value or an error of the caller's own type
//! ([`dispatch`], [`error`]). Nothing here touches the network: the caller
//! makes the call and reports back.

pub mod dispatch;
pub mod error;
pub mod exchange;
pub mod method;
pub mod request;

pub use dispatch::{
    error_result, is_success, send, send_and_parse, success_result, Body, Next, Shape,
};
pub use error::{Failure, LeptosReqwestError};
pub use method::{Carriage, HttpMethod, Verb};
pub use request::{body_request, query_request, Outgoing};
