//! The decisions of a geocoding proxy.
//!
//! The proxy takes an HTTP request that names a location, asks the
//! configured providers for its coordinates, one after the other, and answers
//! with the coordinates as JSON or with a redirect to a map. This crate holds
//! what is decided on the way, as functions from values to values; sending,
//! receiving and serving are left to the program around it.
//!
//! - [`reply`] reads a request and either answers it at once or names the
//!   location to resolve; [`conclude`] turns the outcome of the resolution
//!   into the response.
//! - [`FindLatLong`] is the resolver. [`FindLatLong::start`] and
//!   [`FindLatLong::resume`] give the next step of a resolution, for a caller
//!   that sends the requests itself; [`FindLatLong::find`] runs a whole
//!   resolution with a function that sends them.
//! - [`Protocol`] is what a provider is: the request that asks it, and the
//!   reading of its answer. [`ProtocolHere`] and [`ProtocolMapQuest`] are the
//!   two providers, [`Client`] maps a failed exchange to an error.
//! - [`Error`] is the one error type, a kind with the chain of its causes.
//! - [`ServiceBuilder`] holds the address to listen on and the resolver.
//!
//! Coordinates are doubles that the library never computes with: it holds
//! each by its bits.
//!
//! Two outside crates do part of the work: `serde_json` reads the answers of
//! the providers, and `url` builds the URLs of the requests and reads the
//! queries of the targets. What is stated of their functions stands with the
//! calls, in the modules `json` and `uri`, and is not proved.

use vstd::prelude::*;

mod builder;
mod client;
mod err;
mod finder;
mod json;
mod protocol;
mod service;
mod text;
mod uri;

pub use crate::builder::{Ip, ServiceBuilder, ServiceBuilderView, SockAddr};
pub use crate::client::{fetched_view, received, Client, Fetched, FetchedView};
pub use crate::err::{kind_message, outcome_view, Error, ErrorKind, ErrorView};
pub use crate::finder::{
    after_reply, attempt, explains, follow, hands_back, indices, lemma_all_fail_is_not_found,
    lemma_first_success_wins, lemma_no_provider_is_not_found,
    lemma_resolution_errors_are_not_found, not_found, queries_left, resolution, AnyProtocol,
    FindLatLong, Resolution, Step, StepView,
};
pub use crate::json::{json_at, json_parsed, json_view, Json};
pub use crate::protocol::{
    answer, coordinates_from, lemma_malformed_answer_is_backend_failure,
    lemma_missing_position_is_not_found, lemma_position_is_found, located, numbers_at,
    read_coordinates, request_url, Position, Protocol, ProtocolHere, ProtocolMapQuest,
    RequestDescriptor, RequestDescriptorView, HERE_POSITION, HERE_URL, MAPQUEST_POSITION,
    MAPQUEST_URL,
};
pub use crate::service::{
    conclude, concluded, first_value, follows_host, kind_of, lemma_error_is_rendered, lemma_first_value,
    lemma_found_is_answered, lemma_location_is_resolved, lemma_missing_location_is_a_bad_request,
    lemma_other_methods_are_bad_requests, lemma_other_paths_are_bad_requests, location_of,
    map_opened, map_search_for, map_target, open_map, rendered, reply, respond, route, routed, status_of,
    target_pairs, Reply, ReplyView, Request, RequestKind, Response, ResponseView,
    JSON_CONTENT_TYPE, MAP_SEARCH,
};
pub use crate::uri::{on_dummy_host, plain_base, url_parsed, url_view, url_with_params, UrlView};

verus! {

/// Latitude and longitude in degrees, each held as the bit pattern of an
/// IEEE 754 double.
#[derive(Clone, Copy, Debug, PartialEq, Eq, Structural)]
pub struct Coordinates {
    pub latitude: u64,
    pub longitude: u64,
}

} // verus!
