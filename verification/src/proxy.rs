//! Proxy resolution: an optional proxy URL string becomes a directive that
//! routes all outbound protocols, or an error. A present but malformed value
//! is always an error, never silently "no proxy".

use vstd::prelude::*;

use crate::error::ApplicationError;

verus! {

#[verifier::external_type_specification]
#[verifier::external_body]
pub struct ExProxy(reqwest::Proxy);

/// Whether `reqwest::Proxy::all` accepts this string as a proxy URL. The
/// parse is a pure function of the string.
pub uninterp spec fn proxy_url_parses(url: Seq<char>) -> bool;

/// Relies on `reqwest::Proxy::all`: parses a proxy URL applying to all
/// outbound protocols, failing exactly when the string is rejected as a URL.
#[verifier::external_body]
fn proxy_all(proxy_url: &str) -> (r: Result<reqwest::Proxy, String>)
    ensures
        r is Ok <==> proxy_url_parses(proxy_url@),
{
    reqwest::Proxy::all(proxy_url).map_err(|e| e.to_string())
}

/// Resolves a proxy URL into a directive for all outbound traffic. Succeeds
/// exactly on strings that parse as a proxy URL; a malformed value is an
/// error, never a silent fallback to direct connection.
pub fn get_proxy(proxy_url: &str) -> (r: Result<reqwest::Proxy, ApplicationError>)
    ensures
        r is Ok <==> proxy_url_parses(proxy_url@),
        r matches Err(e) ==> e.logdata is None,
{
    match proxy_all(proxy_url) {
        Ok(proxy) => Ok(proxy),
        Err(error) => Err(ApplicationError::new(error, None)),
    }
}

} // verus!
