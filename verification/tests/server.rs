use std::str::FromStr;

use trustify::server::Error;
use trustify::server::ErrorInformation;
use trustify::server::ResponseKind;

#[test]
fn error_information_keeps_both_parts_verbatim() {
    let info = ErrorInformation::new("System", "boom");
    assert_eq!(info.error_type, "System");
    assert_eq!(info.message, "boom");
}

#[test]
fn system_failure_maps_to_internal_server_error() {
    let err = Error::System(String::from("database error: lost connection"));
    let (kind, info) = err.error_response();
    assert_eq!(kind, ResponseKind::InternalServerError);
    assert_eq!(info.error_type, "System");
    assert_eq!(info.message, "database error: lost connection");
}

#[test]
fn malformed_purl_maps_to_bad_request() {
    let parsed = packageurl::PackageUrl::from_str("not a purl");
    let purl_err = match parsed {
        Err(e) => e,
        Ok(_) => panic!("this text is no package url"),
    };
    let rendered = purl_err.to_string();

    let err = Error::from(purl_err);
    assert!(matches!(err, Error::Purl(_)));
    let (kind, info) = err.error_response();
    assert_eq!(kind, ResponseKind::BadRequest);
    assert_eq!(info.error_type, "InvalidPurlSyntax");
    assert_eq!(info.message, rendered);
}

#[test]
fn system_errors_wrap_via_from() {
    let err = Error::from(String::from("database error: x"));
    match err {
        Error::System(msg) => assert_eq!(msg, "database error: x"),
        Error::Purl(_) => panic!("a rendered system failure is no purl error"),
    }
}
