use geocode::{Error, ErrorKind};

#[test]
fn new_keeps_kind_and_cause_chain() {
    let e = Error::new(
        ErrorKind::BackendFailure,
        vec!["connection refused".to_string(), "os error 111".to_string()],
    );
    assert_eq!(*e.kind(), ErrorKind::BackendFailure);
    assert_eq!(
        *e.cause(),
        vec!["connection refused".to_string(), "os error 111".to_string()]
    );
}

#[test]
fn new_with_one_cause() {
    let e = Error::new(ErrorKind::BadRequest, vec!["Missing location parameter".to_string()]);
    assert_eq!(*e.kind(), ErrorKind::BadRequest);
    assert_eq!(e.cause().len(), 1);
    assert_eq!(e.cause()[0], "Missing location parameter");
}

#[test]
fn from_kind_has_no_cause() {
    let kinds = [
        ErrorKind::BackendFailure,
        ErrorKind::BadRequest,
        ErrorKind::LocationNotFound,
    ];
    for kind in kinds {
        let e = Error::from(kind);
        assert_eq!(*e.kind(), kind);
        assert!(e.cause().is_empty());
    }
}

#[test]
fn each_kind_has_its_message() {
    assert_eq!(
        Error::from(ErrorKind::BackendFailure).to_string(),
        "Backend failure"
    );
    assert_eq!(Error::from(ErrorKind::BadRequest).to_string(), "Bad request");
    assert_eq!(
        Error::from(ErrorKind::LocationNotFound).to_string(),
        "Location not found"
    );
}

#[test]
fn message_does_not_depend_on_the_cause() {
    let e = Error::new(ErrorKind::BadRequest, vec!["why".to_string()]);
    assert_eq!(e.to_string(), "Bad request");
}

#[test]
fn errors_compare_by_kind_and_cause() {
    let a = Error::new(ErrorKind::BadRequest, vec!["x".to_string()]);
    let b = Error::new(ErrorKind::BadRequest, vec!["x".to_string()]);
    let c = Error::new(ErrorKind::BadRequest, vec!["y".to_string()]);
    let d = Error::new(ErrorKind::LocationNotFound, vec!["x".to_string()]);
    assert_eq!(a, b);
    assert_ne!(a, c);
    assert_ne!(a, d);
    assert_ne!(a, Error::from(ErrorKind::BadRequest));
}

#[test]
fn backend_failure_keeps_the_chain() {
    let chain = vec!["error trying to connect".to_string(), "Connection refused".to_string()];
    let e = Error::backend_failure(chain.clone());
    assert_eq!(*e.kind(), ErrorKind::BackendFailure);
    assert_eq!(*e.cause(), chain);
    assert_eq!(e, Error::new(ErrorKind::BackendFailure, chain));
    assert_eq!(e.to_string(), "Backend failure");
    let bare = Error::backend_failure(Vec::new());
    assert_eq!(bare, Error::from(ErrorKind::BackendFailure));
}
