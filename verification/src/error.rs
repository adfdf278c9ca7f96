//! The error type of a dispatch and the ways a dispatch fails.

use vstd::prelude::*;

verus! {

/// `leptos::SerializationError`, the failure to decode a body. Nothing is said
/// of what is in one: a dispatch hands it to the error type as it got it.
#[verifier::external_type_specification]
#[verifier::external_body]
pub struct ExSerializationError(leptos::SerializationError);

/// `reqwest::Error`, the failure to get a response or to read its body.
/// Nothing is said of what is in one: a dispatch hands it to the error type as
/// it got it, or drops it.
#[verifier::external_type_specification]
#[verifier::external_body]
pub struct ExTransportError(reqwest::Error);

/// The error type of a dispatch. Its default value stands for a request that
/// got no response.
pub trait LeptosReqwestError: Default {
    /// Creates an error instance from a deserialization error.
    fn deserialization_error(e: leptos::SerializationError) -> Self;

    /// Creates an error instance from a read error.
    fn read_error(e: reqwest::Error) -> Self;
}

/// The ways a dispatch fails.
pub enum Failure<E> {
    /// The request got no response.
    Transport,
    /// A response came, and its body could not be read as text.
    Read(reqwest::Error),
    /// The body was read and is not of the shape that was expected.
    Deserialization(leptos::SerializationError),
    /// The response has an error status and its body is an error value.
    Application(E),
}

impl<E: LeptosReqwestError> Failure<E> {
    /// `e` is an error that this failure can come out as: the error value
    /// itself for an application error, and for the other failures a value that
    /// the constructor for it gives, on the cause where it takes one.
    pub open spec fn surfaces_as(self, e: E) -> bool {
        match self {
            Failure::Transport => call_ensures(E::default, (), e),
            Failure::Read(cause) => call_ensures(E::read_error, (cause,), e),
            Failure::Deserialization(cause) => call_ensures(E::deserialization_error, (cause,), e),
            Failure::Application(inner) => e == inner,
        }
    }
}

/// `result` is a result that a dispatch with this verdict can return: the
/// value itself on success, and else an error that the failure comes out as.
pub open spec fn delivers<T, E: LeptosReqwestError>(
    verdict: Result<T, Failure<E>>,
    result: Result<T, E>,
) -> bool {
    match verdict {
        Ok(value) => result == Ok::<T, E>(value),
        Err(failure) => result matches Err(e) && failure.surfaces_as(e),
    }
}

} // verus!
