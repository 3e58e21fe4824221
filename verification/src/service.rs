//! The HTTP front-end: which requests are served, and with which response.

use vstd::prelude::*;
use vstd::string::{StrSliceExecFns, StringExecFns};

use crate::err::{outcome_view, Error, ErrorKind, ErrorView};
use crate::text::same_text;
use crate::uri::url_parsed;
use crate::Coordinates;

verus! {

/// What the front-end reads of an HTTP request: the method as it was sent,
/// the path of the target, and the path together with the query.
#[derive(Debug)]
pub struct Request {
    pub method: String,
    pub path: String,
    pub path_and_query: Option<String>,
}

/// The two things that a client can ask for.
#[derive(Clone, Copy, Debug, PartialEq, Eq, Structural)]
pub enum RequestKind {
    /// The coordinates of a location, as JSON.
    Geocode,
    /// A redirect to a map of a location.
    OpenMap,
}

/// An HTTP response, short of the bytes of its body.
#[derive(Debug)]
pub enum Response {
    /// A response whose body is `body` written as JSON, with the content
    /// type [`JSON_CONTENT_TYPE`].
    Json { status: u16, body: Result<Coordinates, Error> },
    /// A response without body that sends the client on to the map search
    /// for `to`.
    Redirect { status: u16, to: Coordinates },
}

/// The mathematical value of a [`Response`].
pub enum ResponseView {
    Json { status: u16, body: Result<Coordinates, ErrorView> },
    Redirect { status: u16, to: Coordinates },
}

impl ResponseView {
    /// The status code.
    pub open spec fn status(self) -> u16 {
        match self {
            ResponseView::Json { status, .. } => status,
            ResponseView::Redirect { status, .. } => status,
        }
    }

    /// Whether the response has a body, and with it a content type.
    pub open spec fn has_body(self) -> bool {
        self is Json
    }
}

impl View for Response {
    type V = ResponseView;

    open spec fn view(&self) -> ResponseView {
        match *self {
            Response::Json { status, body } => ResponseView::Json {
                status,
                body: outcome_view(body),
            },
            Response::Redirect { status, to } => ResponseView::Redirect { status, to },
        }
    }
}

/// What the front-end does with a request.
#[derive(Debug)]
pub enum Reply {
    /// It answers at once.
    Respond(Response),
    /// It has `location` resolved and answers with what [`conclude`] makes of
    /// the outcome.
    Resolve { kind: RequestKind, location: String },
}

/// The mathematical value of a [`Reply`].
pub enum ReplyView {
    Respond(ResponseView),
    Resolve { kind: RequestKind, location: Seq<char> },
}

impl View for Reply {
    type V = ReplyView;

    open spec fn view(&self) -> ReplyView {
        match *self {
            Reply::Respond(response) => ReplyView::Respond(response@),
            Reply::Resolve { kind, location } => ReplyView::Resolve { kind, location: location@ },
        }
    }
}

/// The content type of every response with a body.
pub const JSON_CONTENT_TYPE: &'static str = "application/json; charset=utf-8";

/// The map search, short of the coordinates to search for.
pub const MAP_SEARCH: &'static str = "https://www.google.com/maps/search/?api=1&query=";

/// The map search for a latitude and a longitude, both written as decimal
/// numbers: the two are joined by a comma and put behind [`MAP_SEARCH`].
pub open spec fn map_search_for(latitude: Seq<char>, longitude: Seq<char>) -> Seq<char> {
    MAP_SEARCH@ + latitude + ","@ + longitude
}

/// The status of the response that renders `outcome`. A location that was
/// not found is a query that was served.
pub open spec fn status_of(outcome: Result<Coordinates, ErrorView>) -> u16 {
    match outcome {
        Ok(_) => 200,
        Err(e) => match e.kind {
            ErrorKind::BackendFailure => 503,
            ErrorKind::BadRequest => 400,
            ErrorKind::LocationNotFound => 200,
        },
    }
}

/// The response that renders `outcome` as JSON.
pub open spec fn rendered(outcome: Result<Coordinates, ErrorView>) -> ResponseView {
    ResponseView::Json { status: status_of(outcome), body: outcome }
}

/// The response to a request for a map: a temporary redirect to the map
/// search where the location was found, else the error rendered as JSON.
pub open spec fn map_opened(outcome: Result<Coordinates, ErrorView>) -> ResponseView {
    match outcome {
        Ok(coords) => ResponseView::Redirect { status: 307, to: coords },
        Err(_) => rendered(outcome),
    }
}

/// The response to a request of kind `kind` whose location was resolved with
/// the outcome `outcome`.
pub open spec fn concluded(
    kind: RequestKind,
    outcome: Result<Coordinates, ErrorView>,
) -> ResponseView {
    match kind {
        RequestKind::Geocode => rendered(outcome),
        RequestKind::OpenMap => map_opened(outcome),
    }
}

/// What a path asks for, if it is one of the two that are served.
pub open spec fn kind_of(path: Seq<char>) -> Option<RequestKind> {
    if path == "/geocode"@ {
        Some(RequestKind::Geocode)
    } else if path == "/map"@ {
        Some(RequestKind::OpenMap)
    } else {
        None
    }
}

/// The value of the first pair whose key is `key`.
pub open spec fn first_value(pairs: Seq<(Seq<char>, Seq<char>)>, key: Seq<char>) -> Option<
    Seq<char>,
>
    decreases pairs.len(),
{
    if pairs.len() == 0 {
        None
    } else if pairs[0].0 == key {
        Some(pairs[0].1)
    } else {
        first_value(pairs.drop_first(), key)
    }
}

/// What the front-end does with a request, given its method, its path and
/// the pairs of its query: anything but a GET for one of the two paths is a
/// bad request, and so is one without a `location`.
pub open spec fn routed(
    method: Seq<char>,
    path: Seq<char>,
    pairs: Seq<(Seq<char>, Seq<char>)>,
) -> ReplyView {
    if method != "GET"@ {
        ReplyView::Respond(rendered(Err(ErrorView::bare(ErrorKind::BadRequest))))
    } else {
        match kind_of(path) {
            None => ReplyView::Respond(rendered(Err(ErrorView::bare(ErrorKind::BadRequest)))),
            Some(kind) => match first_value(pairs, "location"@) {
                Some(location) => ReplyView::Resolve { kind, location },
                None => ReplyView::Respond(
                    rendered(
                        Err(
                            ErrorView::because(
                                ErrorKind::BadRequest,
                                "Missing location parameter"@,
                            ),
                        ),
                    ),
                ),
            },
        }
    }
}

/// Whether a request target can stand behind a host as it is: it is empty,
/// or it begins a path, a query or a fragment.
pub open spec fn follows_host(target: Seq<char>) -> bool {
    target.len() == 0 || target[0] == '/' || target[0] == '?' || target[0] == '#'
}

/// The pairs in the query of a request target. The target is put behind
/// `http://dummy.com`, and the pairs are those that `url` reads from the
/// whole. There are none where the target cannot stand behind a host, and
/// none where the whole is no URL.
pub open spec fn target_pairs(path_and_query: Option<Seq<char>>) -> Seq<(Seq<char>, Seq<char>)> {
    let target = match path_and_query {
        Some(target) => target,
        None => Seq::empty(),
    };
    if follows_host(target) {
        match url_parsed("http://dummy.com"@ + target) {
            Some(link) => link.query_pairs,
            None => Seq::empty(),
        }
    } else {
        Seq::empty()
    }
}

/// The first value of a key by positions: it stands in the first pair that
/// has the key, and there is none where no pair has the key.
pub proof fn lemma_first_value(pairs: Seq<(Seq<char>, Seq<char>)>, key: Seq<char>)
    ensures
        first_value(pairs, key) matches Some(value) ==> exists|i: int|
            0 <= i < pairs.len() && #[trigger] pairs[i] == (key, value) && forall|j: int|
                0 <= j < i ==> pairs[j].0 != key,
        first_value(pairs, key) is None ==> forall|j: int|
            0 <= j < pairs.len() ==> pairs[j].0 != key,
    decreases pairs.len(),
{
    if pairs.len() > 0 && pairs[0].0 != key {
        let rest = pairs.drop_first();
        lemma_first_value(rest, key);
        match first_value(rest, key) {
            Some(value) => {
                let i = choose|i: int|
                    0 <= i < rest.len() && #[trigger] rest[i] == (key, value) && forall|j: int|
                        0 <= j < i ==> rest[j].0 != key;
                assert(pairs[i + 1] == (key, value));
                assert forall|j: int| 0 <= j < i + 1 implies pairs[j].0 != key by {
                    if j > 0 {
                        assert(rest[j - 1] == pairs[j]);
                    }
                }
            },
            None => {
                assert forall|j: int| 0 <= j < pairs.len() implies pairs[j].0 != key by {
                    if j > 0 {
                        assert(rest[j - 1] == pairs[j]);
                    }
                }
            },
        }
    } else if pairs.len() > 0 {
        assert(pairs[0] == (key, pairs[0].1));
    }
}

/// Only GET is served: a request with any other method is a bad request,
/// whatever its path and its query.
pub proof fn lemma_other_methods_are_bad_requests(
    method: Seq<char>,
    path: Seq<char>,
    pairs: Seq<(Seq<char>, Seq<char>)>,
)
    requires
        method != "GET"@,
    ensures
        routed(method, path, pairs) == ReplyView::Respond(
            ResponseView::Json { status: 400, body: Err(ErrorView::bare(ErrorKind::BadRequest)) },
        ),
{
}

/// Only `/geocode` and `/map` are served: a request for any other path is a
/// bad request, whatever its method and its query.
pub proof fn lemma_other_paths_are_bad_requests(
    method: Seq<char>,
    path: Seq<char>,
    pairs: Seq<(Seq<char>, Seq<char>)>,
)
    requires
        path != "/geocode"@,
        path != "/map"@,
    ensures
        routed(method, path, pairs) == ReplyView::Respond(
            ResponseView::Json { status: 400, body: Err(ErrorView::bare(ErrorKind::BadRequest)) },
        ),
{
}

/// A GET for one of the two paths whose query has no `location` is a bad
/// request, and the error says what is missing.
pub proof fn lemma_missing_location_is_a_bad_request(
    method: Seq<char>,
    path: Seq<char>,
    pairs: Seq<(Seq<char>, Seq<char>)>,
)
    requires
        method == "GET"@,
        path == "/geocode"@ || path == "/map"@,
        forall|i: int| 0 <= i < pairs.len() ==> pairs[i].0 != "location"@,
    ensures
        routed(method, path, pairs) == ReplyView::Respond(
            ResponseView::Json {
                status: 400,
                body: Err(
                    ErrorView::because(ErrorKind::BadRequest, "Missing location parameter"@),
                ),
            },
        ),
{
    lemma_first_value(pairs, "location"@);
}

/// A GET for one of the two paths with a `location` in its query is
/// resolved, for the first such value.
pub proof fn lemma_location_is_resolved(
    method: Seq<char>,
    path: Seq<char>,
    pairs: Seq<(Seq<char>, Seq<char>)>,
    i: int,
)
    requires
        method == "GET"@,
        path == "/geocode"@ || path == "/map"@,
        0 <= i < pairs.len(),
        pairs[i].0 == "location"@,
        forall|j: int| 0 <= j < i ==> pairs[j].0 != "location"@,
    ensures
        path == "/geocode"@ ==> routed(method, path, pairs) == (ReplyView::Resolve {
            kind: RequestKind::Geocode,
            location: pairs[i].1,
        }),
        path == "/map"@ ==> routed(method, path, pairs) == (ReplyView::Resolve {
            kind: RequestKind::OpenMap,
            location: pairs[i].1,
        }),
{
    lemma_first_value(pairs, "location"@);
    reveal_strlit("/geocode");
    reveal_strlit("/map");
    assert("/geocode"@.len() != "/map"@.len());
}

/// A location that was found is answered with 200 and the coordinates as
/// JSON where coordinates were asked for, and with a temporary redirect to
/// the map where a map was asked for.
pub proof fn lemma_found_is_answered(coords: Coordinates)
    ensures
        concluded(RequestKind::Geocode, Ok(coords)) == (ResponseView::Json {
            status: 200,
            body: Ok(coords),
        }),
        concluded(RequestKind::OpenMap, Ok(coords)) == (ResponseView::Redirect {
            status: 307,
            to: coords,
        }),
{
}

/// An error is rendered as JSON whatever was asked for, and its kind alone
/// decides the status: 503 for a backend failure, 400 for a bad request, and
/// 200 for a location that was not found.
pub proof fn lemma_error_is_rendered(kind: RequestKind, e: ErrorView)
    ensures
        concluded(kind, Err(e)).has_body(),
        concluded(kind, Err(e)) == rendered(Err(e)),
        e.kind == ErrorKind::BackendFailure ==> concluded(kind, Err(e)).status() == 503,
        e.kind == ErrorKind::BadRequest ==> concluded(kind, Err(e)).status() == 400,
        e.kind == ErrorKind::LocationNotFound ==> concluded(kind, Err(e)).status() == 200,
{
}

impl Response {
    /// The status code.
    pub fn status(&self) -> (status: u16)
        ensures
            status == self@.status(),
    {
        match self {
            Response::Json { status, .. } => *status,
            Response::Redirect { status, .. } => *status,
        }
    }

    /// The content type, where the response has a body.
    pub fn content_type(&self) -> (content_type: Option<&'static str>)
        ensures
            self@.has_body() ==> content_type == Some(JSON_CONTENT_TYPE),
            !self@.has_body() ==> content_type is None,
    {
        match self {
            Response::Json { .. } => Some(JSON_CONTENT_TYPE),
            Response::Redirect { .. } => None,
        }
    }
}

/// The response that renders `outcome` as JSON.
pub fn respond(outcome: Result<Coordinates, Error>) -> (response: Response)
    ensures
        response@ == rendered(outcome_view(outcome)),
{
    let status: u16 = match &outcome {
        Ok(_) => 200,
        Err(e) => match e.kind() {
            ErrorKind::BackendFailure => 503,
            ErrorKind::BadRequest => 400,
            ErrorKind::LocationNotFound => 200,
        },
    };
    Response::Json { status, body: outcome }
}

/// The response to a request for a map.
pub fn open_map(outcome: Result<Coordinates, Error>) -> (response: Response)
    ensures
        response@ == map_opened(outcome_view(outcome)),
{
    match outcome {
        Ok(coords) => Response::Redirect { status: 307, to: coords },
        Err(e) => respond(Err(e)),
    }
}

/// The response to a request of kind `kind` once its location was resolved.
pub fn conclude(kind: RequestKind, outcome: Result<Coordinates, Error>) -> (response: Response)
    ensures
        response@ == concluded(kind, outcome_view(outcome)),
{
    match kind {
        RequestKind::Geocode => respond(outcome),
        RequestKind::OpenMap => open_map(outcome),
    }
}

/// The target of the redirect to the map search, from the two coordinates
/// written as decimal numbers.
pub fn map_target(latitude: &str, longitude: &str) -> (target: String)
    ensures
        target@ == map_search_for(latitude@, longitude@),
{
    let mut target = String::from_str(MAP_SEARCH);
    target.append(latitude);
    target.append(",");
    target.append(longitude);
    target
}

/// The value of the first pair whose key is `location`.
pub fn location_of(pairs: &Vec<(String, String)>) -> (location: Option<String>)
    ensures
        location.deep_view() == first_value(pairs.deep_view(), "location"@),
{
    let ghost all = pairs.deep_view();
    let mut i: usize = 0;
    assert(all.skip(0) =~= all);
    while i < pairs.len()
        invariant
            i <= pairs.len(),
            all == pairs.deep_view(),
            first_value(all, "location"@) == first_value(all.skip(i as int), "location"@),
        decreases pairs.len() - i,
    {
        assert(all.skip(i as int)[0] == all[i as int]);
        assert(all.skip(i as int).drop_first() =~= all.skip(i + 1));
        if same_text(pairs[i].0.as_str(), "location") {
            return Some(pairs[i].1.clone());
        }
        i += 1;
    }
    None
}

/// What the front-end does with a request, given the pairs of its query.
pub fn route(method: &str, path: &str, pairs: &Vec<(String, String)>) -> (reply: Reply)
    ensures
        reply@ == routed(method@, path@, pairs.deep_view()),
{
    if !same_text(method, "GET") {
        return Reply::Respond(respond(Err(Error::from(ErrorKind::BadRequest))));
    }
    let kind = if same_text(path, "/geocode") {
        RequestKind::Geocode
    } else if same_text(path, "/map") {
        RequestKind::OpenMap
    } else {
        return Reply::Respond(respond(Err(Error::from(ErrorKind::BadRequest))));
    };
    match location_of(pairs) {
        Some(location) => Reply::Resolve { kind, location },
        None => {
            let mut cause: Vec<String> = Vec::new();
            cause.push("Missing location parameter".to_string());
            let e = Error::new(ErrorKind::BadRequest, cause);
            assert(e@.cause =~= seq!["Missing location parameter"@]);
            Reply::Respond(respond(Err(e)))
        },
    }
}

/// The pairs in the query of a request target.
fn read_target(path_and_query: &Option<String>) -> (pairs: Vec<(String, String)>)
    ensures
        pairs.deep_view() == target_pairs(path_and_query.deep_view()),
{
    let mut whole = String::from_str("http://dummy.com");
    let follows = match path_and_query {
        Some(target) => {
            let target = target.as_str();
            whole.append(target);
            if target.is_empty() {
                true
            } else {
                let first = target.get_char(0);
                first == '/' || first == '?' || first == '#'
            }
        },
        None => {
            assert(whole@ =~= "http://dummy.com"@ + Seq::<char>::empty());
            true
        },
    };
    if follows {
        proof {
            let host = "http://dummy.com"@;
            assert(host =~= whole@.subrange(0, host.len() as int));
        }
        match crate::uri::parse(whole.as_str()) {
            Ok(link) => crate::uri::query_pairs(&link),
            Err(_) => no_pairs(),
        }
    } else {
        no_pairs()
    }
}

fn no_pairs() -> (pairs: Vec<(String, String)>)
    ensures
        pairs.deep_view() == Seq::<(Seq<char>, Seq<char>)>::empty(),
{
    let pairs: Vec<(String, String)> = Vec::new();
    assert(pairs.deep_view() =~= Seq::empty());
    pairs
}

/// What the front-end does with a request. The query is read only for a
/// GET of one of the two paths: no other request depends on it.
pub fn reply(req: &Request) -> (reply: Reply)
    ensures
        reply@ == routed(
            req.method@,
            req.path@,
            target_pairs(req.path_and_query.deep_view()),
        ),
{
    let method = req.method.as_str();
    let path = req.path.as_str();
    let served = same_text(method, "GET") && (same_text(path, "/geocode") || same_text(
        path,
        "/map",
    ));
    let pairs = if served {
        read_target(&req.path_and_query)
    } else {
        no_pairs()
    };
    route(method, path, &pairs)
}

} // verus!
