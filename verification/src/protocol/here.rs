//! The provider Here: where it is asked, and where its answer holds the
//! coordinates.

use vstd::prelude::*;

use crate::err::{Error, ErrorView};
use crate::json::json_parsed;
use crate::protocol::{
    answer, read_coordinates, Position, Protocol, RequestDescriptor, RequestDescriptorView,
};
use crate::Coordinates;

verus! {

/// Where Here's geocoder is asked.
pub const HERE_URL: &'static str = "https://geocoder.api.here.com/6.2/geocode.json";

/// Where Here's answer holds the position of the first result.
pub const HERE_POSITION: &'static str = "/Response/View/0/Result/0/Location/DisplayPosition";

/// The credentials of an account with Here.
#[derive(Clone, Debug, PartialEq, Eq)]
pub struct ProtocolHere {
    pub app_id: String,
    pub app_code: String,
}

impl ProtocolHere {
    /// Where the coordinates stand in an answer.
    pub open spec fn position() -> Position<'static> {
        Position { pointer: HERE_POSITION, latitude: "Latitude", longitude: "Longitude" }
    }
}

impl Protocol for ProtocolHere {
    open spec fn request_spec(&self, loc: Seq<char>) -> RequestDescriptorView {
        RequestDescriptorView {
            base: HERE_URL@,
            params: seq![
                ("app_id"@, self.app_id@),
                ("app_code"@, self.app_code@),
                ("searchtext"@, loc),
            ],
        }
    }

    fn request(&self, loc: &str) -> (req: RequestDescriptor) {
        let mut params: Vec<(String, String)> = Vec::new();
        params.push(("app_id".to_string(), self.app_id.clone()));
        params.push(("app_code".to_string(), self.app_code.clone()));
        params.push(("searchtext".to_string(), loc.to_string()));
        proof {
            reveal_strlit("https://geocoder.api.here.com/6.2/geocode.json");
            assert(params.deep_view() =~= self.request_spec(loc@).params);
        }
        RequestDescriptor::new(HERE_URL.to_string(), params)
    }

    open spec fn parse_spec(&self, body: Seq<u8>) -> Result<Coordinates, ErrorView> {
        answer(json_parsed(body), Self::position())
    }

    fn parse(&self, body: &[u8]) -> (r: Result<Coordinates, Error>) {
        read_coordinates(
            body,
            Position { pointer: HERE_POSITION, latitude: "Latitude", longitude: "Longitude" },
        )
    }
}

} // verus!
