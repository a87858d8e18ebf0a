//! Classification of registry responses, and digest lookup.
//!
//! Per the Distribution API specification, a response is judged by its
//! status code and by the `Docker-Distribution-API-Version` header:
//! `200`/`202` with the supported version value is success, `401` with it
//! is an authorization failure, any other value of the header is an
//! unsupported version, a missing header is an unexpected response, and
//! `404`, `405` and undocumented status codes map to their own outcomes.
//! The functions here receive the status code and the raw header bytes as
//! plain values; the HTTP shell extracts them from the wire.

use vstd::prelude::*;
use vstd::string::StringExecFns;

use crate::ascii::ascii_chars;
use crate::ascii::check_visible_ascii;
use crate::ascii::copy_bytes;
use crate::ascii::dec_chars;
use crate::ascii::is_visible_ascii;
use crate::ascii::string_from_ascii;
use crate::ascii::u16_to_string;
use crate::error::ApiError;

verus! {

/// Media type of a V2 manifest, named in the `Accept` header of a digest
/// lookup.
pub const MANIFEST_V2: &'static str = "application/vnd.docker.distribution.manifest.v2+json";

/// Status codes on which the registry confirms the API.
pub open spec fn status_accepted(status: u16) -> bool {
    status == 200 || status == 202
}

/// Status codes on which the version header is consulted.
pub open spec fn version_consulted(status: u16) -> bool {
    status_accepted(status) || status == 401
}

/// The raw bytes of an optional header value.
pub open spec fn opt_bytes(h: Option<&Vec<u8>>) -> Option<Seq<u8>> {
    match h {
        Some(v) => Some(v@),
        None => None,
    }
}

/// A response that confirms the V2 API: an accepted status code together
/// with a version header that reads exactly as the supported version.
pub open spec fn classify_ok(status: u16, vh: Option<Seq<u8>>) -> bool {
    &&& status_accepted(status)
    &&& vh matches Some(v) && is_visible_ascii(v) && ascii_chars(v) == "registry/2.0"@
}

/// Exactly which error a response that does not confirm the V2 API is
/// classified as, per the decision table of the Distribution API.
pub open spec fn classification_error(status: u16, vh: Option<Seq<u8>>, e: ApiError) -> bool {
    match e {
        ApiError::AuthorizationFailed => {
            &&& status == 401
            &&& vh matches Some(v) && is_visible_ascii(v) && ascii_chars(v) == "registry/2.0"@
        },
        ApiError::UnsupportedVersion(s) => {
            &&& version_consulted(status)
            &&& vh matches Some(v) && is_visible_ascii(v) && s@ == ascii_chars(v) && ascii_chars(v)
                != "registry/2.0"@
        },
        ApiError::ResponseHeaderParseError => {
            &&& version_consulted(status)
            &&& vh matches Some(v) && !is_visible_ascii(v)
        },
        ApiError::UnexpectedResponse(m) => {
            ||| (version_consulted(status) && vh is None && m@ == "Missing version header"@)
            ||| (!version_consulted(status) && status != 404 && status != 405 && m@
                == "Undocumented status code: "@ + dec_chars(status as int))
        },
        ApiError::NotFound => status == 404,
        ApiError::MethodNotAllowed => status == 405,
        _ => false,
    }
}

/// Read the version header as text, or say exactly why that fails:
/// a missing header is an unexpected response, bytes that do not read
/// as text are a header-decoding error.
fn read_version_header(version_header: Option<&Vec<u8>>) -> (r: Result<String, ApiError>)
    ensures
        match r {
            Ok(s) => version_header matches Some(v) && is_visible_ascii(v@) && s@ == ascii_chars(
                v@,
            ),
            Err(e) => match version_header {
                None => e matches ApiError::UnexpectedResponse(m) && m@
                    == "Missing version header"@,
                Some(v) => !is_visible_ascii(v@) && e is ResponseHeaderParseError,
            },
        },
{
    match version_header {
        None => Err(ApiError::UnexpectedResponse(String::from_str("Missing version header"))),
        Some(v) => {
            if check_visible_ascii(v) {
                Ok(string_from_ascii(copy_bytes(v)))
            } else {
                Err(ApiError::ResponseHeaderParseError)
            }
        },
    }
}

/// Classify a single registry response by its status code and the raw
/// bytes of its `Docker-Distribution-API-Version` header, if any.
///
/// Success means the endpoint serves the V2 API; every other response
/// maps to the one error that the decision table assigns to it.
pub fn parse_response_status(status: u16, version_header: Option<&Vec<u8>>) -> (r: Result<
    (),
    ApiError,
>)
    ensures
        r is Ok <==> classify_ok(status, opt_bytes(version_header)),
        r matches Err(e) ==> classification_error(status, opt_bytes(version_header), e),
{
    if status == 200 || status == 202 {
        match read_version_header(version_header) {
            Ok(s) => {
                if s == String::from_str("registry/2.0") {
                    Ok(())
                } else {
                    Err(ApiError::UnsupportedVersion(s))
                }
            },
            Err(e) => Err(e),
        }
    } else if status == 401 {
        match read_version_header(version_header) {
            Ok(s) => {
                if s == String::from_str("registry/2.0") {
                    Err(ApiError::AuthorizationFailed)
                } else {
                    Err(ApiError::UnsupportedVersion(s))
                }
            },
            Err(e) => Err(e),
        }
    } else if status == 404 {
        Err(ApiError::NotFound)
    } else if status == 405 {
        Err(ApiError::MethodNotAllowed)
    } else {
        let mut m = String::from_str("Undocumented status code: ");
        m.append(u16_to_string(status).as_str());
        Err(ApiError::UnexpectedResponse(m))
    }
}

/// The digest of a manifest, from the already-received headers of a HEAD
/// response: classify the response, then read the `docker-content-digest`
/// header, whose absence on an otherwise successful response is an
/// unexpected response.
pub fn get_digest(
    status: u16,
    version_header: Option<&Vec<u8>>,
    digest_header: Option<&Vec<u8>>,
) -> (r: Result<String, ApiError>)
    ensures
        match r {
            Ok(d) => {
                &&& classify_ok(status, opt_bytes(version_header))
                &&& digest_header matches Some(h) && is_visible_ascii(h@) && d@ == ascii_chars(h@)
            },
            Err(e) => {
                if !classify_ok(status, opt_bytes(version_header)) {
                    classification_error(status, opt_bytes(version_header), e)
                } else {
                    match digest_header {
                        None => e matches ApiError::UnexpectedResponse(m) && m@
                            == "Missing docker-content-digest header"@,
                        Some(h) => !is_visible_ascii(h@) && e is ResponseHeaderParseError,
                    }
                }
            },
        },
{
    match parse_response_status(status, version_header) {
        Ok(()) => {},
        Err(e) => {
            return Err(e);
        },
    }
    match digest_header {
        None => Err(
            ApiError::UnexpectedResponse(
                String::from_str("Missing docker-content-digest header"),
            ),
        ),
        Some(h) => {
            if check_visible_ascii(h) {
                Ok(string_from_ascii(copy_bytes(h)))
            } else {
                Err(ApiError::ResponseHeaderParseError)
            }
        },
    }
}

} // verus!

