//! The method selector of a dispatch, the verb it puts on the wire, and the way
//! its payload travels.

use vstd::prelude::*;

verus! {

/// The method selector of a dispatch.
#[derive(Clone, Copy, Debug, PartialEq, Eq, Structural)]
pub enum HttpMethod {
    /// HTTP GET method.
    Get,
    /// HTTP POST method.
    Post,
    /// HTTP PUT method.
    Put,
    /// HTTP DELETE method.
    Delete,
}

/// The verb of the call that goes out.
#[derive(Clone, Copy, Debug, PartialEq, Eq, Structural)]
pub enum Verb {
    Get,
    Post,
    Patch,
    Delete,
}

/// The way a payload travels with a request.
#[derive(Clone, Copy, Debug, PartialEq, Eq, Structural)]
pub enum Carriage {
    /// Encoded as a query string and appended to the address.
    Query,
    /// Encoded as JSON, in the body.
    Body,
}

impl HttpMethod {
    /// The verb that a dispatch with this selector sends. An update goes out as
    /// a patch; the other selectors go out under their own name.
    pub open spec fn spec_verb(self) -> Verb {
        match self {
            HttpMethod::Get => Verb::Get,
            HttpMethod::Post => Verb::Post,
            HttpMethod::Put => Verb::Patch,
            HttpMethod::Delete => Verb::Delete,
        }
    }

    /// The way a payload travels under this selector: in the address for a
    /// `Get`, in the body for every other one.
    pub open spec fn spec_carriage(self) -> Carriage {
        if self == HttpMethod::Get {
            Carriage::Query
        } else {
            Carriage::Body
        }
    }

    #[verifier::when_used_as_spec(spec_verb)]
    pub fn verb(self) -> (verb: Verb)
        ensures
            verb == self.spec_verb(),
    {
        match self {
            HttpMethod::Get => Verb::Get,
            HttpMethod::Post => Verb::Post,
            HttpMethod::Put => Verb::Patch,
            HttpMethod::Delete => Verb::Delete,
        }
    }

    #[verifier::when_used_as_spec(spec_carriage)]
    pub fn carriage(self) -> (carriage: Carriage)
        ensures
            carriage == self.spec_carriage(),
    {
        match self {
            HttpMethod::Get => Carriage::Query,
            _ => Carriage::Body,
        }
    }
}

} // verus!
