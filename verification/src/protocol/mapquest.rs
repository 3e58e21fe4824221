//! The provider MapQuest: where it is asked, and where its answer holds the
//! coordinates.

use vstd::prelude::*;

use crate::err::{Error, ErrorView};
use crate::json::json_parsed;
use crate::protocol::{
    answer, read_coordinates, Position, Protocol, RequestDescriptor, RequestDescriptorView,
};
use crate::Coordinates;

verus! {

/// Where MapQuest's geocoder is asked.
pub const MAPQUEST_URL: &'static str = "https://www.mapquestapi.com/geocoding/v1/address";

/// Where MapQuest's answer holds the position of the first location of the
/// first result.
pub const MAPQUEST_POSITION: &'static str = "/results/0/locations/0/latLng";

/// The key of an account with MapQuest.
#[derive(Clone, Debug, PartialEq, Eq)]
pub struct ProtocolMapQuest {
    pub key: String,
}

impl ProtocolMapQuest {
    /// Where the coordinates stand in an answer.
    pub open spec fn position() -> Position<'static> {
        Position { pointer: MAPQUEST_POSITION, latitude: "lat", longitude: "lng" }
    }
}

impl Protocol for ProtocolMapQuest {
    open spec fn request_spec(&self, loc: Seq<char>) -> RequestDescriptorView {
        RequestDescriptorView {
            base: MAPQUEST_URL@,
            params: seq![("key"@, self.key@), ("location"@, loc)],
        }
    }

    fn request(&self, loc: &str) -> (req: RequestDescriptor) {
        let mut params: Vec<(String, String)> = Vec::new();
        params.push(("key".to_string(), self.key.clone()));
        params.push(("location".to_string(), loc.to_string()));
        proof {
            reveal_strlit("https://www.mapquestapi.com/geocoding/v1/address");
            assert(params.deep_view() =~= self.request_spec(loc@).params);
        }
        RequestDescriptor::new(MAPQUEST_URL.to_string(), params)
    }

    open spec fn parse_spec(&self, body: Seq<u8>) -> Result<Coordinates, ErrorView> {
        answer(json_parsed(body), Self::position())
    }

    fn parse(&self, body: &[u8]) -> (r: Result<Coordinates, Error>) {
        read_coordinates(
            body,
            Position { pointer: MAPQUEST_POSITION, latitude: "lat", longitude: "lng" },
        )
    }
}

} // verus!
