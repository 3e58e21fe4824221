//! What the providers have in common: the request that is sent to one, and
//! how the coordinates are read from its answer.

use vstd::prelude::*;

mod here;
mod mapquest;

pub use self::here::{ProtocolHere, HERE_POSITION, HERE_URL};
pub use self::mapquest::{ProtocolMapQuest, MAPQUEST_POSITION, MAPQUEST_URL};

use crate::err::{outcome_view, Error, ErrorKind, ErrorView};
use crate::json::{json_at, json_parsed, Json};
use crate::uri::{plain_base, url_with_params};
use crate::Coordinates;

verus! {

/// The mathematical value of a [`RequestDescriptor`].
pub struct RequestDescriptorView {
    pub base: Seq<char>,
    pub params: Seq<(Seq<char>, Seq<char>)>,
}

/// A GET request to a provider: the URL that it goes to, without its query,
/// and the parameters that make up the query, in order.
#[derive(Debug)]
pub struct RequestDescriptor {
    base: String,
    params: Vec<(String, String)>,
}

impl View for RequestDescriptor {
    type V = RequestDescriptorView;

    closed spec fn view(&self) -> RequestDescriptorView {
        RequestDescriptorView { base: self.base@, params: self.params.deep_view() }
    }
}

/// The URL of a request written out, with the parameters encoded into the
/// query; `None` where `base` is no URL.
pub open spec fn request_url(req: RequestDescriptorView) -> Option<Seq<char>> {
    match url_with_params(req.base, req.params) {
        Some(link) => Some(link.text),
        None => None,
    }
}

impl RequestDescriptor {
    #[verifier::type_invariant]
    spec fn well_formed(self) -> bool {
        plain_base(self.base@)
    }

    pub(crate) fn new(base: String, params: Vec<(String, String)>) -> (req: RequestDescriptor)
        requires
            plain_base(base@),
        ensures
            req@ == (RequestDescriptorView { base: base@, params: params.deep_view() }),
    {
        RequestDescriptor { base, params }
    }

    /// The URL that the request goes to, without the query.
    pub fn base(&self) -> (base: &str)
        ensures
            base@ == self@.base,
    {
        self.base.as_str()
    }

    /// The parameters of the query, each with its name and its value.
    pub fn params(&self) -> (params: &Vec<(String, String)>)
        ensures
            params.deep_view() == self@.params,
    {
        &self.params
    }

    /// The URL to send the request to: what `url` makes of the base and the
    /// parameters. `None` where it takes the base for no URL, which it does
    /// for neither provider of this library.
    pub fn url(&self) -> (url: Option<String>)
        ensures
            url.deep_view() == request_url(self@),
    {
        proof {
            use_type_invariant(self);
        }
        match crate::uri::parse_with_params(self.base.as_str(), &self.params) {
            Ok(link) => Some(crate::uri::as_str(&link).to_owned()),
            Err(_) => None,
        }
    }
}

/// Where a provider's answer holds the coordinates: the JSON pointer to the
/// position, and the names of its two members.
pub struct Position<'a> {
    pub pointer: &'a str,
    pub latitude: &'a str,
    pub longitude: &'a str,
}

/// What two numbers that may be missing amount to: coordinates where both
/// are there, and otherwise the finding that the location is unknown.
pub open spec fn located(latitude: Option<u64>, longitude: Option<u64>) -> Result<
    Coordinates,
    ErrorView,
> {
    match (latitude, longitude) {
        (Some(latitude), Some(longitude)) => Ok(Coordinates { latitude, longitude }),
        _ => Err(ErrorView::bare(ErrorKind::LocationNotFound)),
    }
}

/// The two numbers that `doc` holds at `position`, each `None` where the
/// pointer leads nowhere, the member is missing or it is no number.
pub open spec fn numbers_at(doc: Json, position: Position) -> (Option<u64>, Option<u64>) {
    match json_at(doc, position.pointer@) {
        Some(found) => (
            found.member_number(position.latitude@),
            found.member_number(position.longitude@),
        ),
        None => (None, None),
    }
}

/// What an answer amounts to that was read as JSON with the result `parsed`:
/// a backend failure, caused by what is wrong with the text, where it is not
/// JSON; else what the numbers at `position` amount to.
pub open spec fn answer(parsed: Result<Json, Seq<char>>, position: Position) -> Result<
    Coordinates,
    ErrorView,
> {
    match parsed {
        Err(why) => Err(ErrorView::because(ErrorKind::BackendFailure, why)),
        Ok(doc) => located(numbers_at(doc, position).0, numbers_at(doc, position).1),
    }
}

/// Coordinates from the two numbers read from an answer.
pub fn coordinates_from(latitude: Option<u64>, longitude: Option<u64>) -> (r: Result<
    Coordinates,
    Error,
>)
    ensures
        outcome_view(r) == located(latitude, longitude),
{
    match (latitude, longitude) {
        (Some(latitude), Some(longitude)) => Ok(Coordinates { latitude, longitude }),
        _ => Err(Error::from(ErrorKind::LocationNotFound)),
    }
}

/// Reads the body of a provider's answer as JSON and takes the coordinates
/// from `position`.
pub fn read_coordinates(body: &[u8], position: Position) -> (r: Result<Coordinates, Error>)
    ensures
        outcome_view(r) == answer(json_parsed(body@), position),
{
    match crate::json::from_slice(body) {
        Err(why) => {
            let mut cause: Vec<String> = Vec::new();
            cause.push(why);
            let e = Error::new(ErrorKind::BackendFailure, cause);
            assert(e@.cause =~= seq![why@]);
            Err(e)
        },
        Ok(doc) => {
            let (latitude, longitude) = match crate::json::pointer(&doc, position.pointer) {
                Some(found) => (
                    crate::json::member_number(found, position.latitude),
                    crate::json::member_number(found, position.longitude),
                ),
                None => (None, None),
            };
            coordinates_from(latitude, longitude)
        },
    }
}

/// An answer that is JSON but does not hold two numbers at `position` means
/// that the location was not found, with no cause, and not that the backend
/// failed.
pub proof fn lemma_missing_position_is_not_found(doc: Json, position: Position)
    requires
        numbers_at(doc, position).0 is None || numbers_at(doc, position).1 is None,
    ensures
        answer(Ok(doc), position) matches Err(e) && e == ErrorView::bare(
            ErrorKind::LocationNotFound,
        ),
{
}

/// An answer that is JSON and holds two numbers at `position` means these
/// coordinates.
pub proof fn lemma_position_is_found(doc: Json, position: Position)
    requires
        numbers_at(doc, position).0 is Some,
        numbers_at(doc, position).1 is Some,
    ensures
        answer(Ok(doc), position) matches Ok(coords) && coords.latitude == numbers_at(
            doc,
            position,
        ).0->0 && coords.longitude == numbers_at(doc, position).1->0,
{
}

/// An answer that is not JSON means that the backend failed, and the one
/// cause is what is wrong with the text.
pub proof fn lemma_malformed_answer_is_backend_failure(why: Seq<char>, position: Position)
    ensures
        answer(Err(why), position) matches Err(e) && e == ErrorView::because(
            ErrorKind::BackendFailure,
            why,
        ),
{
}

/// A provider: how it is asked for a location, and how its answer is read.
pub trait Protocol {
    /// The request that asks for `loc`.
    spec fn request_spec(&self, loc: Seq<char>) -> RequestDescriptorView;

    fn request(&self, loc: &str) -> (req: RequestDescriptor)
        ensures
            req@ == self.request_spec(loc@),
    ;

    /// What the answer `body` means.
    spec fn parse_spec(&self, body: Seq<u8>) -> Result<Coordinates, ErrorView>;

    fn parse(&self, body: &[u8]) -> (r: Result<Coordinates, Error>)
        ensures
            outcome_view(r) == self.parse_spec(body@),
    ;
}

impl<'a, P: Protocol> Protocol for &'a P {
    open spec fn request_spec(&self, loc: Seq<char>) -> RequestDescriptorView {
        (**self).request_spec(loc)
    }

    fn request(&self, loc: &str) -> (req: RequestDescriptor) {
        (**self).request(loc)
    }

    open spec fn parse_spec(&self, body: Seq<u8>) -> Result<Coordinates, ErrorView> {
        (**self).parse_spec(body)
    }

    fn parse(&self, body: &[u8]) -> (r: Result<Coordinates, Error>) {
        (**self).parse(body)
    }
}

} // verus!
