use datamaxi::error::{DatamaxiContentError, Error};
use datamaxi::response::{classify_status, StatusClass, ERROR_BODY_LIMIT};

#[test]
fn status_classes() {
    assert_eq!(classify_status(200), StatusClass::Success);
    assert_eq!(classify_status(400), StatusClass::BadRequest);
    assert_eq!(classify_status(401), StatusClass::Unauthorized);
    assert_eq!(classify_status(500), StatusClass::InternalServerError);
    assert_eq!(classify_status(503), StatusClass::ServiceUnavailable);
    assert_eq!(classify_status(404), StatusClass::Unexpected(404));
    assert_eq!(classify_status(0), StatusClass::Unexpected(0));
    assert_eq!(classify_status(u16::MAX), StatusClass::Unexpected(u16::MAX));
}

#[test]
fn only_success_decodes() {
    for status in 0..=u16::MAX {
        let class = classify_status(status);
        assert_eq!(class.decodes_body(), status == 200);
        assert_eq!(class.reads_error_body(), status == 400 || status == 500);
    }
}

#[test]
fn bad_request_message() {
    let e = classify_status(400).into_error(b"bad field");
    assert_eq!(e, Error::BadRequest("bad field".to_string()));
}

#[test]
fn internal_server_error_message() {
    let e = classify_status(500).into_error("boom ü".as_bytes());
    assert_eq!(e, Error::InternalServerError("boom ü".to_string()));
}

#[test]
fn unauthorized_ignores_body() {
    let class = classify_status(401);
    assert!(!class.reads_error_body());
    assert_eq!(class.into_error(b"secret details"), Error::Unauthorized);
    assert_eq!(classify_status(401).into_error(b""), Error::Unauthorized);
}

#[test]
fn service_unavailable_and_unexpected() {
    assert_eq!(classify_status(503).into_error(b"x"), Error::ServiceUnavailable);
    assert_eq!(classify_status(404).into_error(b"x"), Error::UnexpectedStatusCode(404));
    assert_eq!(classify_status(302).into_error(b""), Error::UnexpectedStatusCode(302));
}

#[test]
fn long_body_is_cut() {
    let body = vec![b'a'; 1500];
    let e = classify_status(400).into_error(&body);
    assert_eq!(e, Error::BadRequest("a".repeat(ERROR_BODY_LIMIT)));
    let body = vec![b'b'; 1000];
    assert_eq!(classify_status(500).into_error(&body), Error::InternalServerError("b".repeat(1000)));
}

#[test]
fn invalid_utf8_body() {
    let e = classify_status(400).into_error(&[0x66, 0xff, 0x67]);
    assert!(matches!(e, Error::Io(_)));
    let mut body = vec![b'a'; 999];
    body.extend_from_slice("é".as_bytes());
    let e = classify_status(500).into_error(&body);
    assert!(matches!(e, Error::Io(_)));
}

#[test]
fn error_messages() {
    assert_eq!(Error::BadRequest("bad field".to_string()).message(), "Bad request: bad field");
    assert_eq!(Error::Unauthorized.message(), "Unauthorized");
    assert_eq!(Error::ServiceUnavailable.message(), "Service unavailable");
    assert_eq!(Error::InternalServerError("x".to_string()).message(), "Internal server error: x");
    assert_eq!(Error::UnexpectedStatusCode(418).message(), "Received unexpected status code: 418");
    assert_eq!(Error::ValueMissingError(3, "symbol".to_string()).message(), "symbol at 3 is missing");
    assert_eq!(Error::ValueMissingError(usize::MAX, "n".to_string()).message(), format!("n at {} is missing", usize::MAX));
    let e = Error::DatamaxiError(DatamaxiContentError { code: -12, msg: "no such symbol".to_string() });
    assert_eq!(e.message(), "Server error -12: no such symbol");
    assert_eq!(Error::Json("eof".to_string()).message(), "eof");
}
