//! The call that a dispatch sends out.

use crate::method::{Carriage, HttpMethod, Verb};
use vstd::prelude::*;
use vstd::string::*;

verus! {

/// `serde_urlencoded::ser::Error`, the failure to encode a payload as a query
/// string. Nothing is said of what is in one: a dispatch drops it.
#[verifier::external_type_specification]
#[verifier::external_body]
pub struct ExQueryError(serde_urlencoded::ser::Error);

/// The call to make: its verb, its address, and the payload that goes into its
/// body as JSON, where there is one.
#[derive(Debug)]
pub struct Outgoing<T> {
    pub verb: Verb,
    pub address: String,
    pub body: Option<T>,
}

/// An address followed by a question mark and a query string.
pub open spec fn with_query(address: Seq<char>, query: Seq<char>) -> Seq<char> {
    address + seq!['?'] + query
}

/// The address of a `Get`. `encoded` is `None` where the dispatch has no
/// payload, and else what encoding the payload as a query string gave. A query
/// string is appended; a payload that could not be encoded leaves the address
/// as it is.
pub open spec fn query_address(
    url: Seq<char>,
    encoded: Option<Result<String, serde_urlencoded::ser::Error>>,
) -> Seq<char> {
    match encoded {
        Some(Ok(query)) => with_query(url, query@),
        _ => url,
    }
}

/// The call of a dispatch whose payload travels in the address.
pub fn query_request<T>(
    url: String,
    encoded: Option<Result<String, serde_urlencoded::ser::Error>>,
) -> (out: Outgoing<T>)
    ensures
        out.verb == Verb::Get,
        out.address@ == query_address(url@, encoded),
        out.body is None,
{
    let address = match encoded {
        Some(Ok(query)) => {
            proof {
                reveal_strlit("?");
            }
            assert("?"@ =~= seq!['?']);
            url.concat("?").concat(query.as_str())
        },
        _ => url,
    };
    Outgoing { verb: Verb::Get, address, body: None }
}

/// The call of a dispatch whose payload travels in the body. Such a dispatch
/// has a payload.
pub fn body_request<T>(method: HttpMethod, url: String, payload: Option<T>) -> (out: Outgoing<T>)
    requires
        method.carriage() == Carriage::Body,
        payload is Some,
    ensures
        out.verb == method.verb(),
        out.address == url,
        out.body == payload,
{
    Outgoing { verb: method.verb(), address: url, body: payload }
}

} // verus!
