use geocode::{
    conclude, location_of, map_target, open_map, reply, respond, route, Coordinates, Error,
    ErrorKind, Reply, Request, RequestKind, Response, JSON_CONTENT_TYPE,
};

fn coords(latitude: f64, longitude: f64) -> Coordinates {
    Coordinates { latitude: latitude.to_bits(), longitude: longitude.to_bits() }
}

fn request(method: &str, path: &str, path_and_query: Option<&str>) -> Request {
    Request {
        method: method.to_string(),
        path: path.to_string(),
        path_and_query: path_and_query.map(|s| s.to_string()),
    }
}

fn pair(k: &str, v: &str) -> (String, String) {
    (k.to_string(), v.to_string())
}

fn error_of(reply: Reply) -> (u16, Error) {
    match reply {
        Reply::Respond(Response::Json { status, body: Err(e) }) => (status, e),
        other => panic!("unexpected reply {:?}", other),
    }
}

fn resolve_of(reply: Reply) -> (RequestKind, String) {
    match reply {
        Reply::Resolve { kind, location } => (kind, location),
        other => panic!("unexpected reply {:?}", other),
    }
}

#[test]
fn get_geocode_with_location_is_resolved() {
    let r = reply(&request("GET", "/geocode", Some("/geocode?location=Paris")));
    assert_eq!(resolve_of(r), (RequestKind::Geocode, "Paris".to_string()));
}

#[test]
fn get_map_with_location_is_resolved() {
    let r = reply(&request("GET", "/map", Some("/map?location=Paris")));
    assert_eq!(resolve_of(r), (RequestKind::OpenMap, "Paris".to_string()));
}

#[test]
fn geocode_found_is_200_with_the_coordinates() {
    let r = reply(&request("GET", "/geocode", Some("/geocode?location=Paris")));
    let (kind, _) = resolve_of(r);
    let response = conclude(kind, Ok(coords(48.8566, 2.3522)));
    assert_eq!(response.status(), 200);
    assert_eq!(response.content_type(), Some("application/json; charset=utf-8"));
    match response {
        Response::Json { status, body } => {
            assert_eq!(status, 200);
            assert_eq!(body, Ok(coords(48.8566, 2.3522)));
        }
        other => panic!("unexpected response {:?}", other),
    }
}

#[test]
fn get_geocode_without_location_is_400_bad_request() {
    let (status, e) = error_of(reply(&request("GET", "/geocode", Some("/geocode"))));
    assert_eq!(status, 400);
    assert_eq!(*e.kind(), ErrorKind::BadRequest);
    assert_eq!(*e.cause(), vec!["Missing location parameter".to_string()]);
}

#[test]
fn get_map_without_location_is_400_bad_request() {
    let (status, e) = error_of(reply(&request("GET", "/map", Some("/map?place=Paris"))));
    assert_eq!(status, 400);
    assert_eq!(e, Error::new(ErrorKind::BadRequest, vec!["Missing location parameter".to_string()]));
}

#[test]
fn post_geocode_is_400() {
    let (status, e) = error_of(reply(&request("POST", "/geocode", Some("/geocode?location=Paris"))));
    assert_eq!(status, 400);
    assert_eq!(e, Error::from(ErrorKind::BadRequest));
}

#[test]
fn any_method_but_get_is_a_bad_request() {
    for method in ["POST", "PUT", "DELETE", "HEAD", "OPTIONS", "PATCH", "get", "GETS", ""] {
        for path in ["/geocode", "/map", "/", "/other"] {
            let target = format!("{}?location=Paris", path);
            let (status, e) = error_of(reply(&request(method, path, Some(&target))));
            assert_eq!(status, 400);
            assert_eq!(e, Error::from(ErrorKind::BadRequest));
        }
    }
}

#[test]
fn any_other_path_is_a_bad_request() {
    for path in ["/", "", "/geocode/", "/Geocode", "/maps", "/map/x", "/geocode/map", "geocode"] {
        let target = format!("{}?location=Paris", path);
        let (status, e) = error_of(reply(&request("GET", path, Some(&target))));
        assert_eq!(status, 400, "path {}", path);
        assert_eq!(e, Error::from(ErrorKind::BadRequest));
    }
}

#[test]
fn request_without_target_has_no_location() {
    let (status, e) = error_of(reply(&request("GET", "/geocode", None)));
    assert_eq!(status, 400);
    assert_eq!(*e.cause(), vec!["Missing location parameter".to_string()]);
}

#[test]
fn target_that_makes_no_url_has_no_location() {
    for target in [":x/geocode?location=Paris", ":99999999/geocode?location=Paris"] {
        let (status, e) = error_of(reply(&request("GET", "/geocode", Some(target))));
        assert_eq!(status, 400, "target {}", target);
        assert_eq!(*e.kind(), ErrorKind::BadRequest);
        assert_eq!(*e.cause(), vec!["Missing location parameter".to_string()]);
    }
}

#[test]
fn target_that_continues_the_host_is_not_read() {
    let mut target = "a".repeat(77_979);
    target.push('\u{D7A3}');
    target.push_str("/geocode?location=x");
    let (status, e) = error_of(reply(&request("GET", "/geocode", Some(&target))));
    assert_eq!(status, 400);
    assert_eq!(
        e,
        Error::new(ErrorKind::BadRequest, vec!["Missing location parameter".to_string()])
    );
    for target in ["@evil.example/geocode?location=x", ".example?location=x", "*", " /geocode?location=x"] {
        let (status, e) = error_of(reply(&request("GET", "/map", Some(target))));
        assert_eq!(status, 400, "target {}", target);
        assert_eq!(*e.cause(), vec!["Missing location parameter".to_string()]);
    }
}

#[test]
fn target_may_begin_with_the_query() {
    let r = reply(&request("GET", "/geocode", Some("?location=Paris")));
    assert_eq!(resolve_of(r), (RequestKind::Geocode, "Paris".to_string()));
    let r = reply(&request("GET", "/map", Some("?a=b&location=Rome")));
    assert_eq!(resolve_of(r), (RequestKind::OpenMap, "Rome".to_string()));
}

#[test]
fn target_that_is_a_fragment_or_empty_has_no_location() {
    for target in ["#location=Paris", "", "/", "?", "#"] {
        let (status, e) = error_of(reply(&request("GET", "/geocode", Some(target))));
        assert_eq!(status, 400, "target {}", target);
        assert_eq!(*e.cause(), vec!["Missing location parameter".to_string()]);
    }
}

#[test]
fn long_query_is_read() {
    let filler = "x".repeat(100_000);
    let target = format!("/geocode?filler={}&location=Paris&tail={}", filler, filler);
    let r = reply(&request("GET", "/geocode", Some(&target)));
    assert_eq!(resolve_of(r), (RequestKind::Geocode, "Paris".to_string()));
    let place = "é".repeat(50_000);
    let target = format!("/map?location={}", place);
    let r = reply(&request("GET", "/map", Some(&target)));
    assert_eq!(resolve_of(r), (RequestKind::OpenMap, place));
}

#[test]
fn method_and_path_decide_before_the_target() {
    let mut target = "b".repeat(80_000);
    target.push('\u{D7A3}');
    target.push_str("?location=x");
    let (status, e) = error_of(reply(&request("POST", "/geocode", Some(&target))));
    assert_eq!((status, e), (400, Error::from(ErrorKind::BadRequest)));
    let (status, e) = error_of(reply(&request("GET", "/other", Some(&target))));
    assert_eq!((status, e), (400, Error::from(ErrorKind::BadRequest)));
}

#[test]
fn fragment_is_no_part_of_the_query() {
    let r = reply(&request("GET", "/geocode", Some("/geocode?location=Paris#x&location=Rome")));
    assert_eq!(resolve_of(r), (RequestKind::Geocode, "Paris".to_string()));
    let (status, _) = error_of(reply(&request("GET", "/geocode", Some("/geocode#?location=Paris"))));
    assert_eq!(status, 400);
}

#[test]
fn location_is_decoded() {
    let r = reply(&request("GET", "/geocode", Some("/geocode?location=New%20York%2C+NY")));
    assert_eq!(resolve_of(r), (RequestKind::Geocode, "New York, NY".to_string()));
    let r = reply(&request("GET", "/map", Some("/map?location=S%C3%A3o+Paulo")));
    assert_eq!(resolve_of(r), (RequestKind::OpenMap, "São Paulo".to_string()));
}

#[test]
fn first_location_of_several_counts() {
    let r = reply(&request(
        "GET",
        "/geocode",
        Some("/geocode?lang=fr&location=Paris&location=London"),
    ));
    assert_eq!(resolve_of(r), (RequestKind::Geocode, "Paris".to_string()));
}

#[test]
fn empty_location_is_a_location() {
    let r = reply(&request("GET", "/geocode", Some("/geocode?location=")));
    assert_eq!(resolve_of(r), (RequestKind::Geocode, String::new()));
    let r = reply(&request("GET", "/geocode", Some("/geocode?location")));
    assert_eq!(resolve_of(r), (RequestKind::Geocode, String::new()));
}

#[test]
fn key_must_be_location_exactly() {
    for query in ["Location=Paris", "locations=Paris", "location%20=Paris", "=Paris", ""] {
        let target = format!("/geocode?{}", query);
        let (status, e) = error_of(reply(&request("GET", "/geocode", Some(&target))));
        assert_eq!(status, 400, "query {}", query);
        assert_eq!(*e.cause(), vec!["Missing location parameter".to_string()]);
    }
}

#[test]
fn route_decides_on_method_path_and_pairs() {
    let pairs = vec![pair("a", "1"), pair("location", "Rome"), pair("location", "Oslo")];
    assert_eq!(
        resolve_of(route("GET", "/geocode", &pairs)),
        (RequestKind::Geocode, "Rome".to_string())
    );
    assert_eq!(
        resolve_of(route("GET", "/map", &pairs)),
        (RequestKind::OpenMap, "Rome".to_string())
    );
    assert_eq!(error_of(route("POST", "/map", &pairs)), (400, Error::from(ErrorKind::BadRequest)));
    assert_eq!(error_of(route("GET", "/nope", &pairs)), (400, Error::from(ErrorKind::BadRequest)));
    let none = vec![pair("a", "1")];
    assert_eq!(
        error_of(route("GET", "/map", &none)),
        (
            400,
            Error::new(ErrorKind::BadRequest, vec!["Missing location parameter".to_string()])
        )
    );
    assert_eq!(error_of(route("PUT", "/nope", &none)), (400, Error::from(ErrorKind::BadRequest)));
}

#[test]
fn location_of_takes_the_first_match() {
    assert_eq!(location_of(&Vec::new()), None);
    assert_eq!(location_of(&vec![pair("x", "y")]), None);
    assert_eq!(location_of(&vec![pair("location", "A")]), Some("A".to_string()));
    assert_eq!(
        location_of(&vec![pair("x", "y"), pair("location", "A"), pair("location", "B")]),
        Some("A".to_string())
    );
    assert_eq!(location_of(&vec![pair("Location", "A"), pair("location", "")]), Some(String::new()));
}

#[test]
fn status_follows_the_kind() {
    assert_eq!(respond(Ok(coords(1.0, 2.0))).status(), 200);
    assert_eq!(respond(Err(Error::from(ErrorKind::BackendFailure))).status(), 503);
    assert_eq!(respond(Err(Error::from(ErrorKind::BadRequest))).status(), 400);
    assert_eq!(respond(Err(Error::from(ErrorKind::LocationNotFound))).status(), 200);
    assert_eq!(
        respond(Err(Error::new(ErrorKind::BackendFailure, vec!["down".to_string()]))).status(),
        503
    );
}

#[test]
fn respond_renders_the_outcome_itself() {
    let e = Error::new(ErrorKind::BackendFailure, vec!["a".to_string(), "b".to_string()]);
    match respond(Err(e)) {
        Response::Json { status, body } => {
            assert_eq!(status, 503);
            assert_eq!(
                body,
                Err(Error::new(
                    ErrorKind::BackendFailure,
                    vec!["a".to_string(), "b".to_string()]
                ))
            );
        }
        other => panic!("unexpected response {:?}", other),
    }
    let r = respond(Ok(coords(-33.8688, 151.2093)));
    assert_eq!(r.content_type(), Some(JSON_CONTENT_TYPE));
}

#[test]
fn map_found_is_a_temporary_redirect() {
    let r = reply(&request("GET", "/map", Some("/map?location=Paris")));
    let (kind, _) = resolve_of(r);
    let response = conclude(kind, Ok(coords(48.8566, 2.3522)));
    assert_eq!(response.status(), 307);
    assert_eq!(response.content_type(), None);
    match response {
        Response::Redirect { status, to } => {
            assert_eq!(status, 307);
            assert_eq!(to, coords(48.8566, 2.3522));
            let latitude = f64::from_bits(to.latitude).to_string();
            let longitude = f64::from_bits(to.longitude).to_string();
            assert_eq!(
                map_target(&latitude, &longitude),
                "https://www.google.com/maps/search/?api=1&query=48.8566,2.3522"
            );
        }
        other => panic!("unexpected response {:?}", other),
    }
}

#[test]
fn map_not_found_is_the_error_as_json() {
    for (kind, status) in [
        (ErrorKind::BackendFailure, 503),
        (ErrorKind::BadRequest, 400),
        (ErrorKind::LocationNotFound, 200),
    ] {
        match open_map(Err(Error::from(kind))) {
            Response::Json { status: got, body } => {
                assert_eq!(got, status);
                assert_eq!(body, Err(Error::from(kind)));
            }
            other => panic!("unexpected response {:?}", other),
        }
    }
}

#[test]
fn conclude_goes_by_the_kind_of_request() {
    let found = coords(10.5, -20.25);
    assert!(matches!(
        conclude(RequestKind::Geocode, Ok(found)),
        Response::Json { status: 200, body: Ok(_) }
    ));
    assert!(matches!(
        conclude(RequestKind::OpenMap, Ok(found)),
        Response::Redirect { status: 307, .. }
    ));
    assert!(matches!(
        conclude(RequestKind::Geocode, Err(Error::from(ErrorKind::LocationNotFound))),
        Response::Json { status: 200, body: Err(_) }
    ));
    assert!(matches!(
        conclude(RequestKind::OpenMap, Err(Error::from(ErrorKind::BackendFailure))),
        Response::Json { status: 503, body: Err(_) }
    ));
}

#[test]
fn map_target_joins_the_two_numbers() {
    assert_eq!(
        map_target("-33.8688", "151.2093"),
        "https://www.google.com/maps/search/?api=1&query=-33.8688,151.2093"
    );
    assert_eq!(map_target("", ""), "https://www.google.com/maps/search/?api=1&query=,");
}
