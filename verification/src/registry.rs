//! Turning the `<REGISTRY>` argument into a registry base URL.
//!
//! The argument may be a bare host, a `host:port`, or a full URL; when it
//! names no scheme, `https://` is prepended, and the resulting text must
//! parse as a URL. URL parsing itself is the `url` crate's business; what
//! is prepended, what is handed to the parser, and which error comes back
//! is decided and stated here.

use vstd::prelude::*;
use vstd::string::StringExecFns;

use crate::error::DredgeError;
use crate::text::has_prefix;
use crate::text::spec_has_prefix;

verus! {

#[verifier::external_type_specification]
#[verifier::external_body]
pub struct ExUrl(url::Url);

/// Names whether `url::Url::parse` accepts a given text, which depends on
/// the text alone.
pub uninterp spec fn url_parse_ok(s: Seq<char>) -> bool;

/// Relies on `url::Url::parse`: deterministic in its input; yields a URL
/// exactly when it accepts the text.
#[verifier::external_body]
fn parse_url(s: &String) -> (r: Option<url::Url>)
    ensures
        r is Some <==> url_parse_ok(s@),
{
    url::Url::parse(s.as_str()).ok()
}

/// The registry argument with an HTTPS scheme prepended when it names
/// neither an HTTP nor an HTTPS one.
pub open spec fn with_scheme(host: Seq<char>) -> Seq<char> {
    if spec_has_prefix(host, "http://"@) || spec_has_prefix(host, "https://"@) {
        host
    } else {
        "https://"@ + host
    }
}

/// Parse the `<REGISTRY>` argument into a complete registry URL: the
/// argument itself when it already carries a scheme, otherwise with
/// `https://` prepended; a text the URL parser rejects is a registry-URL
/// error naming that text.
pub fn parse_registry_arg(host: &String) -> (r: Result<url::Url, DredgeError>)
    ensures
        r is Ok <==> url_parse_ok(with_scheme(host@)),
        r matches Err(e) ==> e matches DredgeError::RegistryUrlError(s) && s@ == with_scheme(
            host@,
        ),
{
    let full: String = if has_prefix(host, "http://") || has_prefix(host, "https://") {
        host.clone()
    } else {
        let mut f = String::from_str("https://");
        f.append(host.as_str());
        f
    };
    match parse_url(&full) {
        Some(u) => Ok(u),
        None => Err(DredgeError::RegistryUrlError(full)),
    }
}

} // verus!
