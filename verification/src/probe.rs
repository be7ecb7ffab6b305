//! The probe itself: one GET request through the freshly built client, and
//! the boundary operation that runs the whole pipeline — decode, build,
//! request — and translates every outcome into the response the shell
//! consumes.

use vstd::prelude::*;

use crate::client::{get_client, request_material_accepted, ConnectionRequest};
use crate::error::ApplicationError;
use crate::log::DiagnosticLog;
use crate::material::IdentityFormat;

verus! {

#[verifier::external_type_specification]
#[verifier::external_body]
pub struct ExRequestBuilder(reqwest::blocking::RequestBuilder);

/// Success as the shell sees it: the probe went through, with the diagnostic
/// log captured at response time.
pub struct Output {
    pub success: bool,
    pub logdata: String,
}

/// Relies on `reqwest::blocking::Client::get`: prepares a single GET request
/// for the URL. A malformed URL surfaces as an error when the request is
/// sent.
#[verifier::external_body]
fn new_get_request(client: &reqwest::blocking::Client, url: &str) -> reqwest::blocking::RequestBuilder {
    client.get(url)
}

/// Relies on `reqwest::blocking::RequestBuilder::send`: issues the request
/// once, with no retry; the response body is received and discarded. The
/// outcome depends on the network, so nothing is promised of it: any
/// failure — DNS, connect, handshake, certificate, timeout — comes back
/// uniformly as the transport's message text.
#[verifier::external_body]
fn send_request(request: reqwest::blocking::RequestBuilder) -> Result<(), String> {
    match request.send() {
        Ok(_) => Ok(()),
        Err(error) => Err(error.to_string()),
    }
}

/// Every outcome the probe pipeline may return for the given request
/// material and diagnostic log: success only with all material decoded and
/// the log snapshot attached; rejected material always an error; every error
/// carrying the log snapshot taken at failure time.
pub open spec fn probe_outcome_admissible(
    certificate: Seq<u8>,
    keystore: Seq<u8>,
    format: IdentityFormat,
    passphrase: Seq<char>,
    proxy_url: Option<Seq<char>>,
    log: Seq<char>,
    r: Result<Output, ApplicationError>,
) -> bool {
    &&& (r matches Ok(o) ==> o.success && o.logdata@ == log && request_material_accepted(
        certificate,
        keystore,
        format,
        passphrase,
        proxy_url,
    ))
    &&& (!request_material_accepted(certificate, keystore, format, passphrase, proxy_url)
        ==> r is Err)
    &&& (r matches Err(e) ==> e.logdata matches Some(l) && l@ == log)
}

/// The boundary operation, one invocation per user action: builds a fresh
/// client from the loaded material under the request's policy, issues the
/// single GET probe, and reports the outcome together with the diagnostic
/// log. The stages run strictly in order — decode anchor, decode identity,
/// resolve proxy, build, request — and the first failure short-circuits, so
/// rejected material never reaches the network. Every response, success or
/// error, carries the log snapshot taken at response time.
pub fn do_request(
    request: &ConnectionRequest,
    certificate_bytes: &Vec<u8>,
    keystore_bytes: &Vec<u8>,
    identity_format: &IdentityFormat,
    log: &DiagnosticLog,
) -> (r: Result<Output, ApplicationError>)
    ensures
        probe_outcome_admissible(
            certificate_bytes@,
            keystore_bytes@,
            *identity_format,
            request.keystore_password@,
            request.proxy_url.deep_view(),
            log@,
            r,
        ),
        r matches Ok(o) ==> o.success && o.logdata@ == log@,
        r matches Err(e) ==> e.logdata matches Some(l) && l@ == log@,
{
    let client = match get_client(certificate_bytes, keystore_bytes, identity_format, request) {
        Ok(client) => client,
        Err(error) => return Err(ApplicationError::new(error.error, Some(log.snapshot()))),
    };
    let probe = new_get_request(&client, request.url.as_str());
    match send_request(probe) {
        Ok(()) => Ok(Output { success: true, logdata: log.snapshot() }),
        Err(error) => Err(ApplicationError::new(error, Some(log.snapshot()))),
    }
}

} // verus!
