//! The part of a provider's client that decides: what to send, and what the
//! outcome of the exchange means.

use vstd::prelude::*;

use crate::err::{outcome_view, Error, ErrorKind, ErrorView};
use crate::protocol::{Protocol, RequestDescriptor};
use crate::Coordinates;

verus! {

/// What came back from a provider: the body of its answer, or, where the
/// exchange failed, the descriptions of the failure and of its causes,
/// outermost first.
pub type Fetched = Result<Vec<u8>, Vec<String>>;

/// The mathematical value of a [`Fetched`].
pub type FetchedView = Result<Seq<u8>, Seq<Seq<char>>>;

/// What came back, with bytes and texts taken by their views.
pub open spec fn fetched_view(reply: Fetched) -> FetchedView {
    match reply {
        Ok(body) => Ok(body@),
        Err(cause) => Err(cause.deep_view()),
    }
}

/// What a reply means for the provider `protocol`: what the provider reads
/// from the body, or a backend failure caused by the failed exchange.
pub open spec fn received<P: Protocol>(protocol: P, reply: FetchedView) -> Result<
    Coordinates,
    ErrorView,
> {
    match reply {
        Ok(body) => protocol.parse_spec(body),
        Err(cause) => Err(ErrorView { kind: ErrorKind::BackendFailure, cause }),
    }
}

/// A client of one provider.
#[derive(Debug)]
pub struct Client<P> {
    protocol: P,
}

impl<P: Protocol> Client<P> {
    /// The provider that this is a client of.
    pub closed spec fn protocol(&self) -> P {
        self.protocol
    }

    /// A client of `protocol`.
    pub fn new(protocol: P) -> (client: Self)
        ensures
            client.protocol() == protocol,
    {
        Client { protocol }
    }

    /// The request to send for `loc`.
    pub fn request(&self, loc: &str) -> (req: RequestDescriptor)
        ensures
            req@ == self.protocol().request_spec(loc@),
    {
        self.protocol.request(loc)
    }

    /// The coordinates that the provider found, given what came back for the
    /// request.
    pub fn find_lat_long(&self, reply: Fetched) -> (r: Result<Coordinates, Error>)
        ensures
            outcome_view(r) == received(self.protocol(), fetched_view(reply)),
    {
        match reply {
            Ok(body) => self.protocol.parse(body.as_slice()),
            Err(cause) => Err(Error::backend_failure(cause)),
        }
    }
}

} // verus!
