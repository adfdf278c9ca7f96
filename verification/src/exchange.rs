//! A dispatch as a whole, and what holds of it.
//!
//! The steps of a dispatch ask the transport for one thing after another. Here
//! all the answers are laid out at once, so that the end of a dispatch can be
//! said in one expression.

use crate::dispatch::{
    error_verdict, is_success, parse_plan, send_plan, success_verdict, Body, Next, Shape,
};
use crate::error::{delivers, Failure, LeptosReqwestError};
use crate::request::query_address;
use vstd::prelude::*;

verus! {

/// What the transport answers to a dispatch, whatever the dispatch asks of it.
pub struct Exchange<T, E> {
    /// The status of the response, or the failure to get one.
    pub sent: Result<u16, reqwest::Error>,
    /// What reading the body and decoding it as a success gives.
    pub success: Body<T>,
    /// What reading the body and decoding it as an error gives.
    pub error: Body<E>,
}

/// The verdict that a plan comes to on the answers of `exchange`.
pub open spec fn verdict<T, E>(
    plan: Next<T, Failure<E>>,
    exchange: Exchange<T, E>,
) -> Result<T, Failure<E>> {
    match plan {
        Next::Done(verdict) => verdict,
        Next::Read(Shape::Success) => success_verdict(exchange.success),
        Next::Read(Shape::Error) => error_verdict(exchange.error),
    }
}

/// The verdict of a dispatch that parses a success body.
pub open spec fn parse_verdict<U, E>(exchange: Exchange<U, E>) -> Result<U, Failure<E>> {
    verdict(parse_plan(exchange.sent), exchange)
}

/// The verdict of a dispatch that only reports success.
pub open spec fn send_verdict<E>(exchange: Exchange<bool, E>) -> Result<bool, Failure<E>> {
    verdict(send_plan(exchange.sent), exchange)
}

/// Following a plan gives the plan's verdict. Where `next` follows `plan`, and
/// `result` is what `next` ends with, or what the body that `next` asks for
/// gives, `result` is a result that the verdict of `plan` can be returned as.
pub proof fn steps_deliver_the_verdict<T, E: LeptosReqwestError>(
    plan: Next<T, Failure<E>>,
    exchange: Exchange<T, E>,
    next: Next<T, E>,
    result: Result<T, E>,
)
    requires
        next.follows(plan),
        match next {
            Next::Done(end) => result == end,
            Next::Read(Shape::Success) => delivers(success_verdict::<T, E>(exchange.success), result),
            Next::Read(Shape::Error) => delivers(error_verdict::<T, E>(exchange.error), result),
        },
    ensures
        delivers(verdict(plan, exchange), result),
{
}

/// Without a payload the address of a `Get` is the address that was given,
/// with nothing appended.
pub proof fn get_without_payload_keeps_address(url: Seq<char>)
    ensures
        query_address(url, None) == url,
{
}

/// With a payload that was encoded the address of a `Get` is the address that
/// was given, a question mark and the encoded fields; with one that could not
/// be encoded it is the address that was given.
pub proof fn get_with_payload_appends_query(
    url: Seq<char>,
    encoded: Result<String, serde_urlencoded::ser::Error>,
)
    ensures
        encoded matches Ok(query) ==> query_address(url, Some(encoded)) == url + seq!['?'] + query@,
        encoded is Err ==> query_address(url, Some(encoded)) == url,
{
}

/// On status 200 with a body of the success shape, a parsing dispatch
/// succeeds with the decoded value.
pub proof fn parse_succeeds_on_ok_status<U, E>(exchange: Exchange<U, E>, value: U)
    requires
        exchange.sent == Ok::<u16, reqwest::Error>(200),
        exchange.success == Ok::<_, reqwest::Error>(Ok::<U, leptos::SerializationError>(value)),
    ensures
        parse_verdict(exchange) == Ok::<U, Failure<E>>(value),
{
}

/// On any status but 200 with a body of the error shape, a parsing dispatch
/// fails with the decoded error.
pub proof fn parse_hands_on_the_error_body<U, E>(exchange: Exchange<U, E>, status: u16, error: E)
    requires
        exchange.sent == Ok::<u16, reqwest::Error>(status),
        status != 200,
        exchange.error == Ok::<_, reqwest::Error>(Ok::<E, leptos::SerializationError>(error)),
    ensures
        parse_verdict(exchange) == Err::<U, Failure<E>>(Failure::Application(error)),
{
}

/// On status 200 with a body that is not of the success shape, a parsing
/// dispatch fails with a deserialization failure on the cause.
pub proof fn parse_fails_on_malformed_success<U, E>(
    exchange: Exchange<U, E>,
    cause: leptos::SerializationError,
)
    requires
        exchange.sent == Ok::<u16, reqwest::Error>(200),
        exchange.success == Ok::<_, reqwest::Error>(Err::<U, leptos::SerializationError>(cause)),
    ensures
        parse_verdict(exchange) == Err::<U, Failure<E>>(Failure::Deserialization(cause)),
{
}

/// Without a response both dispatches fail with a transport failure, whatever
/// the cause, and a transport failure comes out as a default value of the
/// error type and as nothing else.
pub proof fn transport_failure_is_the_default_error<U, E: LeptosReqwestError>(
    parsing: Exchange<U, E>,
    reporting: Exchange<bool, E>,
)
    requires
        parsing.sent is Err,
        reporting.sent is Err,
    ensures
        parse_verdict(parsing) == Err::<U, Failure<E>>(Failure::Transport),
        send_verdict(reporting) == Err::<bool, Failure<E>>(Failure::Transport),
        forall|e: E| Failure::<E>::Transport.surfaces_as(e) <==> call_ensures(E::default, (), e),
{
}

/// On a status of the success class a reporting dispatch succeeds with `true`,
/// whatever the body is.
pub proof fn send_reports_success_class<E>(exchange: Exchange<bool, E>, status: u16)
    requires
        exchange.sent == Ok::<u16, reqwest::Error>(status),
        is_success(status),
    ensures
        send_verdict(exchange) == Ok::<bool, Failure<E>>(true),
        send_plan::<E>(exchange.sent) is Done,
{
}

/// On every other report of the transport a reporting dispatch fails as a
/// parsing dispatch does on the same report and the same error body.
pub proof fn send_fails_as_parse_does<U, E>(reporting: Exchange<bool, E>, parsing: Exchange<U, E>)
    requires
        reporting.sent == parsing.sent,
        reporting.error == parsing.error,
        reporting.sent matches Ok(status) ==> !is_success(status),
    ensures
        send_verdict(reporting) is Err,
        parse_verdict(parsing) is Err,
        send_verdict(reporting)->Err_0 == parse_verdict(parsing)->Err_0,
{
}

} // verus!
