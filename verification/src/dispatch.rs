//! What a dispatch does with the answers of the transport.
//!
//! A dispatch sends one request. The transport reports a status or fails. On
//! that report the dispatch is over, or it asks for the body, read as text and
//! decoded into one of two shapes, and ends on what that gives.

use crate::error::{delivers, Failure, LeptosReqwestError};
use vstd::prelude::*;

verus! {

/// The shape that a response body is decoded into.
#[derive(Clone, Copy, Debug, PartialEq, Eq, Structural)]
pub enum Shape {
    /// The success type of the dispatch.
    Success,
    /// The error type of the dispatch.
    Error,
}

/// What a dispatch does once the transport has reported.
#[derive(Debug)]
pub enum Next<T, E> {
    /// The dispatch is over, with this result.
    Done(Result<T, E>),
    /// The body is read as text and decoded into this shape.
    Read(Shape),
}

/// What reading a body as text and decoding it into `T` gave: the failure to
/// read, or else what decoding the text gave.
pub type Body<T> = Result<Result<T, leptos::SerializationError>, reqwest::Error>;

impl<T, E: LeptosReqwestError> Next<T, E> {
    /// This step carries out `plan`: it asks for the same shape, or it is over
    /// with a result that the verdict of `plan` can be returned as.
    pub open spec fn follows(self, plan: Next<T, Failure<E>>) -> bool {
        match plan {
            Next::Done(verdict) => self matches Next::Done(result) && delivers(verdict, result),
            Next::Read(shape) => self == Next::<T, E>::Read(shape),
        }
    }
}

/// A status of the success class, 200 to 299.
pub open spec fn spec_is_success(status: u16) -> bool {
    200 <= status < 300
}

#[verifier::when_used_as_spec(spec_is_success)]
pub fn is_success(status: u16) -> (yes: bool)
    ensures
        yes == spec_is_success(status),
{
    200 <= status && status < 300
}

/// The plan of a dispatch that parses a success body. Without a response it
/// fails. On status 200, and on no other, the body is a success; on every
/// other status it is an error.
pub open spec fn parse_plan<U, E>(sent: Result<u16, reqwest::Error>) -> Next<U, Failure<E>> {
    match sent {
        Err(_) => Next::Done(Err(Failure::Transport)),
        Ok(status) => if status == 200 {
            Next::Read(Shape::Success)
        } else {
            Next::Read(Shape::Error)
        },
    }
}

/// The plan of a dispatch that only reports success. Without a response it
/// fails. On a status of the success class it is over with `true`, and the body
/// is not looked at; on every other status the body is an error.
pub open spec fn send_plan<E>(sent: Result<u16, reqwest::Error>) -> Next<bool, Failure<E>> {
    match sent {
        Err(_) => Next::Done(Err(Failure::Transport)),
        Ok(status) => if is_success(status) {
            Next::Done(Ok(true))
        } else {
            Next::Read(Shape::Error)
        },
    }
}

/// The verdict on a body that was asked for as a success.
pub open spec fn success_verdict<U, E>(body: Body<U>) -> Result<U, Failure<E>> {
    match body {
        Err(cause) => Err(Failure::Read(cause)),
        Ok(Err(cause)) => Err(Failure::Deserialization(cause)),
        Ok(Ok(value)) => Ok(value),
    }
}

/// The verdict on a body that was asked for as an error. A body that is an
/// error value is a failure too: it is handed on as the error.
pub open spec fn error_verdict<T, E>(body: Body<E>) -> Result<T, Failure<E>> {
    match body {
        Err(cause) => Err(Failure::Read(cause)),
        Ok(Err(cause)) => Err(Failure::Deserialization(cause)),
        Ok(Ok(error)) => Err(Failure::Application(error)),
    }
}

/// The step of a parsing dispatch on the report of the transport: the status
/// of the response, or the failure to get one.
pub fn send_and_parse<U, E: LeptosReqwestError>(
    sent: Result<u16, reqwest::Error>,
) -> (next: Next<U, E>)
    ensures
        next.follows(parse_plan::<U, E>(sent)),
{
    match sent {
        Err(_) => Next::Done(Err(E::default())),
        Ok(status) => if status == 200 {
            Next::Read(Shape::Success)
        } else {
            Next::Read(Shape::Error)
        },
    }
}

/// The step of a dispatch that only reports success, on the report of the
/// transport.
pub fn send<E: LeptosReqwestError>(sent: Result<u16, reqwest::Error>) -> (next: Next<bool, E>)
    ensures
        next.follows(send_plan::<E>(sent)),
{
    match sent {
        Err(_) => Next::Done(Err(E::default())),
        Ok(status) => if is_success(status) {
            Next::Done(Ok(true))
        } else {
            Next::Read(Shape::Error)
        },
    }
}

/// The result of a dispatch on the body that it asked for as a success.
pub fn success_result<U, E: LeptosReqwestError>(body: Body<U>) -> (result: Result<U, E>)
    ensures
        delivers(success_verdict::<U, E>(body), result),
{
    match body {
        Ok(Ok(value)) => Ok(value),
        Ok(Err(cause)) => Err(E::deserialization_error(cause)),
        Err(cause) => Err(E::read_error(cause)),
    }
}

/// The result of a dispatch on the body that it asked for as an error.
pub fn error_result<T, E: LeptosReqwestError>(body: Body<E>) -> (result: Result<T, E>)
    ensures
        delivers(error_verdict::<T, E>(body), result),
{
    match body {
        Ok(Ok(error)) => Err(error),
        Ok(Err(cause)) => Err(E::deserialization_error(cause)),
        Err(cause) => Err(E::read_error(cause)),
    }
}

} // verus!
