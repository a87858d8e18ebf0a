//! Tests of link parsing, response classification and digest lookup.

use dredge::api::get_digest;
use dredge::api::parse_response_status;
use dredge::ascii::u16_to_string;
use dredge::error::ApiError;
use dredge::link::parse_rfc5988;

const V2: &str = "registry/2.0";

fn bytes(s: &str) -> Vec<u8> {
    s.as_bytes().to_vec()
}

/// Test parsing a valid RFC5988 header value.
///
/// Attempt to parse a valid RFC5988 header value, and ensure that the
/// parsed URL was returned as expected.
#[test]
fn test_parse_rfc5988_valid() {
    let valid_header_value = bytes(r#"<https://example.com/related>; rel="related""#);

    let result = parse_rfc5988(Some(&valid_header_value)).unwrap();

    assert_eq!(result, Some(String::from("https://example.com/related")));
}

/// Test parsing an invalid RFC5988 header value.
///
/// Attempt to parse an invalid string as RFC5988, ensuring that the `None`
/// variant is returned.
#[test]
fn test_parse_rfc5988_invalid() {
    let invalid_header_value = bytes(r#"invalid header value"#);

    let result = parse_rfc5988(Some(&invalid_header_value)).unwrap();

    assert_eq!(result, None);
}

/// An absent header means no continuation.
#[test]
fn test_parse_rfc5988_absent() {
    assert_eq!(parse_rfc5988(None).unwrap(), None);
}

/// Surrounding white space of the first segment is trimmed; only the
/// first `;`-delimited segment is consulted.
#[test]
fn test_parse_rfc5988_trims() {
    let value = bytes("  </v2/_catalog?last=x>\t ; rel=next; foo=<bar>");
    let result = parse_rfc5988(Some(&value)).unwrap();
    assert_eq!(result, Some(String::from("/v2/_catalog?last=x")));
}

/// Empty angle brackets yield an empty continuation path.
#[test]
fn test_parse_rfc5988_empty_target() {
    let value = bytes("<>");
    assert_eq!(parse_rfc5988(Some(&value)).unwrap(), Some(String::new()));
}

/// A value whose first segment lacks a closing bracket has no
/// continuation.
#[test]
fn test_parse_rfc5988_unclosed() {
    let value = bytes("<https://example.com/related; rel=next");
    assert_eq!(parse_rfc5988(Some(&value)).unwrap(), None);
}

/// Header bytes outside visible ASCII are a header-decoding error.
#[test]
fn test_parse_rfc5988_unreadable() {
    let value = vec![0xffu8, b'<', b'x', b'>'];
    assert!(matches!(
        parse_rfc5988(Some(&value)),
        Err(ApiError::ResponseHeaderParseError)
    ));
}

/// 200 with the supported version header is success.
#[test]
fn test_classify_ok() {
    let v = bytes(V2);
    assert!(parse_response_status(200, Some(&v)).is_ok());
}

/// 202 with the supported version header is success as well.
#[test]
fn test_classify_accepted() {
    let v = bytes(V2);
    assert!(parse_response_status(202, Some(&v)).is_ok());
}

/// 200 with another version value is an unsupported version naming it.
#[test]
fn test_classify_unsupported_version() {
    let v = bytes("registry/1.0");
    match parse_response_status(200, Some(&v)) {
        Err(ApiError::UnsupportedVersion(s)) => assert_eq!(s, "registry/1.0"),
        other => panic!("expected UnsupportedVersion, got {other:?}"),
    }
}

/// 200 without the version header is an unexpected response.
#[test]
fn test_classify_missing_version() {
    match parse_response_status(200, None) {
        Err(ApiError::UnexpectedResponse(m)) => assert_eq!(m, "Missing version header"),
        other => panic!("expected UnexpectedResponse, got {other:?}"),
    }
}

/// 401 with the supported version header is an authorization failure.
#[test]
fn test_classify_authorization_failed() {
    let v = bytes(V2);
    assert!(matches!(
        parse_response_status(401, Some(&v)),
        Err(ApiError::AuthorizationFailed)
    ));
}

/// 401 with another version value is an unsupported version.
#[test]
fn test_classify_unauthorized_unsupported_version() {
    let v = bytes("registry/3.0");
    match parse_response_status(401, Some(&v)) {
        Err(ApiError::UnsupportedVersion(s)) => assert_eq!(s, "registry/3.0"),
        other => panic!("expected UnsupportedVersion, got {other:?}"),
    }
}

/// 401 without the version header is an unexpected response.
#[test]
fn test_classify_unauthorized_missing_version() {
    assert!(matches!(
        parse_response_status(401, None),
        Err(ApiError::UnexpectedResponse(_))
    ));
}

/// 404 is not-found whatever the headers say.
#[test]
fn test_classify_not_found() {
    let v = bytes(V2);
    assert!(matches!(parse_response_status(404, None), Err(ApiError::NotFound)));
    assert!(matches!(
        parse_response_status(404, Some(&v)),
        Err(ApiError::NotFound)
    ));
}

/// 405 is method-not-allowed whatever the headers say.
#[test]
fn test_classify_method_not_allowed() {
    let v = bytes(V2);
    assert!(matches!(
        parse_response_status(405, None),
        Err(ApiError::MethodNotAllowed)
    ));
    assert!(matches!(
        parse_response_status(405, Some(&v)),
        Err(ApiError::MethodNotAllowed)
    ));
}

/// Any other status code is an unexpected response naming the code.
#[test]
fn test_classify_undocumented_status() {
    match parse_response_status(418, None) {
        Err(ApiError::UnexpectedResponse(m)) => {
            assert_eq!(m, "Undocumented status code: 418")
        }
        other => panic!("expected UnexpectedResponse, got {other:?}"),
    }
}

/// A version header with bytes outside visible ASCII is a header-decoding
/// error, not an absent header.
#[test]
fn test_classify_unreadable_version_header() {
    let v = vec![0x00u8, 0x80];
    assert!(matches!(
        parse_response_status(200, Some(&v)),
        Err(ApiError::ResponseHeaderParseError)
    ));
}

/// Validates the happy path for the get_digest function: a HEAD response
/// with status 200, the supported version header, and a digest header
/// yields exactly that digest string.
#[test]
fn test_get_digest() {
    let v = bytes(V2);
    let d = bytes("sha256:0259571889ac87efbfca5b79a0abe9baf626d058ec5f9a5744bace2229d9ed50");
    let result = get_digest(200, Some(&v), Some(&d));
    assert!(result.is_ok(), "{:?}", result.unwrap_err());
    assert_eq!(
        result.unwrap(),
        *"sha256:0259571889ac87efbfca5b79a0abe9baf626d058ec5f9a5744bace2229d9ed50"
    );
}

/// The digest lookup classifies the response first.
#[test]
fn test_get_digest_unsupported_version() {
    let v = bytes("registry/1.0");
    let d = bytes("sha256:deadbeef");
    match get_digest(200, Some(&v), Some(&d)) {
        Err(ApiError::UnsupportedVersion(s)) => assert_eq!(s, "registry/1.0"),
        other => panic!("expected UnsupportedVersion, got {other:?}"),
    }
}

/// A successful response without the digest header is an unexpected
/// response.
#[test]
fn test_get_digest_missing_header() {
    let v = bytes(V2);
    match get_digest(200, Some(&v), None) {
        Err(ApiError::UnexpectedResponse(m)) => {
            assert_eq!(m, "Missing docker-content-digest header")
        }
        other => panic!("expected UnexpectedResponse, got {other:?}"),
    }
}

/// Decimal renderings of status codes.
#[test]
fn test_u16_to_string() {
    assert_eq!(u16_to_string(0), "0");
    assert_eq!(u16_to_string(404), "404");
    assert_eq!(u16_to_string(65535), "65535");
}
