use std::cell::Cell;

use geocode::{
    conclude, map_target, reply, AnyProtocol, Coordinates, Error, ErrorKind, FindLatLong,
    ProtocolHere, ProtocolMapQuest, Reply, Request, RequestDescriptor, Response,
};

const HERE_PARIS: &str = "{\"Response\":{\"View\":[{\"Result\":[{\"Location\":{\"DisplayPosition\":{\"Latitude\":48.8566,\"Longitude\":2.3522}}}]}]}}";

fn here_only() -> FindLatLong {
    FindLatLong::new(vec![AnyProtocol::Here(ProtocolHere {
        app_id: "id".to_string(),
        app_code: "code".to_string(),
    })])
}

fn get(target: &str) -> Request {
    let path = target.split('?').next().unwrap_or("");
    Request {
        method: "GET".to_string(),
        path: path.to_string(),
        path_and_query: Some(target.to_string()),
    }
}

/// Serves `request` with `finder`, every provider answering `body`; also
/// counts the requests that went out.
fn serve(finder: &FindLatLong, request: &Request, body: &str) -> (Response, usize) {
    let sent = Cell::new(0);
    let response = match reply(request) {
        Reply::Respond(response) => response,
        Reply::Resolve { kind, location } => {
            let outcome = finder.find(&location, |_: &RequestDescriptor| {
                sent.set(sent.get() + 1);
                Ok(body.as_bytes().to_vec())
            });
            conclude(kind, outcome)
        }
    };
    (response, sent.get())
}

#[test]
fn geocode_paris_against_here_is_200_with_the_coordinates() {
    let (response, sent) = serve(&here_only(), &get("/geocode?location=Paris"), HERE_PARIS);
    assert_eq!(sent, 1);
    assert_eq!(response.status(), 200);
    assert_eq!(response.content_type(), Some("application/json; charset=utf-8"));
    match response {
        Response::Json { body, .. } => assert_eq!(
            body,
            Ok(Coordinates {
                latitude: 48.8566f64.to_bits(),
                longitude: 2.3522f64.to_bits()
            })
        ),
        other => panic!("unexpected response {:?}", other),
    }
}

#[test]
fn map_paris_against_here_is_307_to_the_map_search() {
    let (response, sent) = serve(&here_only(), &get("/map?location=Paris"), HERE_PARIS);
    assert_eq!(sent, 1);
    assert_eq!(response.status(), 307);
    match response {
        Response::Redirect { to, .. } => assert_eq!(
            map_target(
                &f64::from_bits(to.latitude).to_string(),
                &f64::from_bits(to.longitude).to_string()
            ),
            "https://www.google.com/maps/search/?api=1&query=48.8566,2.3522"
        ),
        other => panic!("unexpected response {:?}", other),
    }
}

#[test]
fn geocode_without_location_sends_nothing() {
    let (response, sent) = serve(&here_only(), &get("/geocode"), HERE_PARIS);
    assert_eq!(sent, 0);
    assert_eq!(response.status(), 400);
    match response {
        Response::Json { body: Err(e), .. } => assert_eq!(*e.kind(), ErrorKind::BadRequest),
        other => panic!("unexpected response {:?}", other),
    }
}

#[test]
fn post_sends_nothing() {
    let mut request = get("/geocode?location=Paris");
    request.method = "POST".to_string();
    let (response, sent) = serve(&here_only(), &request, HERE_PARIS);
    assert_eq!(sent, 0);
    assert_eq!(response.status(), 400);
}

#[test]
fn unknown_location_is_200_with_not_found() {
    let finder = FindLatLong::new(vec![
        AnyProtocol::Here(ProtocolHere { app_id: "id".to_string(), app_code: "code".to_string() }),
        AnyProtocol::MapQuest(ProtocolMapQuest { key: "key".to_string() }),
    ]);
    for target in ["/geocode?location=Atlantis", "/map?location=Atlantis"] {
        let (response, sent) = serve(&finder, &get(target), "{}");
        assert_eq!(sent, 2);
        assert_eq!(response.status(), 200);
        match response {
            Response::Json { body, .. } => {
                assert_eq!(body, Err(Error::from(ErrorKind::LocationNotFound)))
            }
            other => panic!("unexpected response {:?}", other),
        }
    }
}

#[test]
fn no_provider_is_200_with_the_reason() {
    let finder = FindLatLong::default();
    let (response, sent) = serve(&finder, &get("/geocode?location=Paris"), HERE_PARIS);
    assert_eq!(sent, 0);
    assert_eq!(response.status(), 200);
    match response {
        Response::Json { body: Err(e), .. } => {
            assert_eq!(*e.kind(), ErrorKind::LocationNotFound);
            assert_eq!(*e.cause(), vec!["No backend service configured".to_string()]);
        }
        other => panic!("unexpected response {:?}", other),
    }
}
