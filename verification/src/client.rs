//! Client construction: composes the decoded trust anchor, the decoded
//! client identity, an optional proxy directive and the TLS policy flags into
//! one ready-to-use blocking HTTP client. A client is never built unless both
//! the anchor and the identity decoded; any decode failure short-circuits
//! first.

use vstd::prelude::*;

use crate::error::ApplicationError;
use crate::material::{
    decode_identity, get_certificate, identity_parses, pem_cert_parses, IdentityFormat,
};
use crate::proxy::{get_proxy, proxy_url_parses};

verus! {

#[verifier::external_type_specification]
#[verifier::external_body]
pub struct ExClientBuilder(reqwest::blocking::ClientBuilder);

#[verifier::external_type_specification]
#[verifier::external_body]
pub struct ExClient(reqwest::blocking::Client);

/// One probe request as the shell hands it over: target, routing, material
/// locations, passphrase, and the four TLS policy flags, every flag explicit.
pub struct ConnectionRequest {
    pub url: String,
    pub proxy_url: Option<String>,
    pub keystore_path: String,
    pub keystore_password: String,
    pub public_certificate_path: String,
    pub check_hostname: bool,
    pub use_inbuilt_root_certs: bool,
    pub use_https_only: bool,
    pub use_tls_sni: bool,
}

/// What the client trusts: the supplied anchor alone, or the anchor together
/// with the platform's built-in root store. The anchor itself is always
/// trusted.
pub enum TrustMode {
    AnchorOnly,
    AnchorPlusBuiltIn,
}

/// The TLS policy a client is built under, resolved from the request flags.
pub struct TlsPolicy {
    pub trust_mode: TrustMode,
    pub accept_invalid_hostnames: bool,
    pub https_only: bool,
    pub tls_sni: bool,
    pub verbose: bool,
}

/// Resolves the four request flags into the policy the transport is
/// configured with. Hostname verification is disabled exactly when
/// `check_hostname` is false (a deliberate danger override); the built-in
/// root store is added exactly when asked for; verbose handshake tracing is
/// always on.
pub fn resolve_policy(
    check_hostname: bool,
    use_inbuilt_root_certs: bool,
    use_https_only: bool,
    use_tls_sni: bool,
) -> (r: TlsPolicy)
    ensures
        r.accept_invalid_hostnames == !check_hostname,
        r.trust_mode is AnchorPlusBuiltIn <==> use_inbuilt_root_certs,
        r.https_only == use_https_only,
        r.tls_sni == use_tls_sni,
        r.verbose,
{
    let trust_mode = if use_inbuilt_root_certs {
        TrustMode::AnchorPlusBuiltIn
    } else {
        TrustMode::AnchorOnly
    };
    TlsPolicy {
        trust_mode,
        accept_invalid_hostnames: !check_hostname,
        https_only: use_https_only,
        tls_sni: use_tls_sni,
        verbose: true,
    }
}

/// Relies on `reqwest::blocking::Client::builder`: a fresh client builder.
#[verifier::external_body]
fn blocking_client_builder() -> reqwest::blocking::ClientBuilder {
    reqwest::blocking::Client::builder()
}

/// Relies on `reqwest::blocking::ClientBuilder::tls_backend_native`: forces
/// the native TLS backend.
#[verifier::external_body]
fn builder_native_tls(builder: reqwest::blocking::ClientBuilder) -> reqwest::blocking::ClientBuilder {
    builder.tls_backend_native()
}

/// Relies on `reqwest::blocking::ClientBuilder::tls_certs_only`: the client
/// trusts only the given root, with the built-in store disabled.
#[verifier::external_body]
fn builder_trust_only_anchor(
    builder: reqwest::blocking::ClientBuilder,
    certificate: reqwest::Certificate,
) -> reqwest::blocking::ClientBuilder {
    builder.tls_certs_only([certificate])
}

/// Relies on `reqwest::blocking::ClientBuilder::tls_certs_merge`: the client
/// trusts the given root in addition to the built-in store.
#[verifier::external_body]
fn builder_trust_anchor_and_built_in(
    builder: reqwest::blocking::ClientBuilder,
    certificate: reqwest::Certificate,
) -> reqwest::blocking::ClientBuilder {
    builder.tls_certs_merge([certificate])
}

/// Relies on `reqwest::blocking::ClientBuilder::identity`: attaches the
/// client certificate and key used to authenticate during the handshake.
#[verifier::external_body]
fn builder_identity(
    builder: reqwest::blocking::ClientBuilder,
    identity: reqwest::Identity,
) -> reqwest::blocking::ClientBuilder {
    builder.identity(identity)
}

/// Relies on `reqwest::blocking::ClientBuilder::https_only`: restricts the
/// client to HTTPS requests when enabled.
#[verifier::external_body]
fn builder_https_only(
    builder: reqwest::blocking::ClientBuilder,
    enabled: bool,
) -> reqwest::blocking::ClientBuilder {
    builder.https_only(enabled)
}

/// Relies on `reqwest::blocking::ClientBuilder::connection_verbose`: routes
/// verbose connection and handshake events to the transport's trace hooks.
#[verifier::external_body]
fn builder_connection_verbose(
    builder: reqwest::blocking::ClientBuilder,
    verbose: bool,
) -> reqwest::blocking::ClientBuilder {
    builder.connection_verbose(verbose)
}

/// Relies on `reqwest::blocking::ClientBuilder::tls_sni`: controls whether
/// Server Name Indication is sent during the handshake.
#[verifier::external_body]
fn builder_tls_sni(
    builder: reqwest::blocking::ClientBuilder,
    enabled: bool,
) -> reqwest::blocking::ClientBuilder {
    builder.tls_sni(enabled)
}

/// Relies on
/// `reqwest::blocking::ClientBuilder::tls_danger_accept_invalid_hostnames`:
/// when enabled, a certificate whose subject does not match the requested
/// host is accepted.
#[verifier::external_body]
fn builder_accept_invalid_hostnames(
    builder: reqwest::blocking::ClientBuilder,
    accept: bool,
) -> reqwest::blocking::ClientBuilder {
    builder.tls_danger_accept_invalid_hostnames(accept)
}

/// Relies on `reqwest::blocking::ClientBuilder::proxy`: routes the client's
/// traffic through the given proxy directive.
#[verifier::external_body]
fn builder_proxy(
    builder: reqwest::blocking::ClientBuilder,
    proxy: reqwest::Proxy,
) -> reqwest::blocking::ClientBuilder {
    builder.proxy(proxy)
}

/// Relies on `reqwest::blocking::ClientBuilder::build`: assembles the client,
/// failing when the transport cannot reconcile the configuration.
#[verifier::external_body]
fn builder_build(builder: reqwest::blocking::ClientBuilder) -> (r: Result<
    reqwest::blocking::Client,
    String,
>) {
    builder.build().map_err(|e| e.to_string())
}

/// A fresh builder forced onto the native TLS backend, the base every client
/// starts from.
fn get_clientbuilder() -> reqwest::blocking::ClientBuilder {
    builder_native_tls(blocking_client_builder())
}

/// Applies the resolved TLS policy to a builder: trust mode, mandatory
/// client identity, HTTPS restriction, verbose tracing, SNI, and the
/// hostname-verification override, in that order.
fn apply_policy(
    builder: reqwest::blocking::ClientBuilder,
    certificate: reqwest::Certificate,
    identity: reqwest::Identity,
    policy: &TlsPolicy,
) -> reqwest::blocking::ClientBuilder {
    let builder = match policy.trust_mode {
        TrustMode::AnchorOnly => builder_trust_only_anchor(builder, certificate),
        TrustMode::AnchorPlusBuiltIn => builder_trust_anchor_and_built_in(builder, certificate),
    };
    let builder = builder_identity(builder, identity);
    let builder = builder_https_only(builder, policy.https_only);
    let builder = builder_connection_verbose(builder, policy.verbose);
    let builder = builder_tls_sni(builder, policy.tls_sni);
    builder_accept_invalid_hostnames(builder, policy.accept_invalid_hostnames)
}

/// All material of a request decodes: the trust anchor parses, the identity
/// container decodes under the chosen form, and the proxy URL, where one is
/// present, parses.
pub open spec fn request_material_accepted(
    certificate: Seq<u8>,
    keystore: Seq<u8>,
    format: IdentityFormat,
    passphrase: Seq<char>,
    proxy_url: Option<Seq<char>>,
) -> bool {
    &&& pem_cert_parses(certificate)
    &&& identity_parses(format, keystore, passphrase)
    &&& match proxy_url {
        Some(u) => proxy_url_parses(u),
        None => true,
    }
}

/// Builds the probe client from loaded material and the request. The anchor,
/// the identity and the proxy are decoded in that order, short-circuiting on
/// the first failure, so a client only ever exists with both anchor and
/// identity in place; the transport build itself may still fail on a
/// configuration it cannot reconcile. Errors here carry no log snapshot: no
/// network activity has happened yet.
pub fn get_client(
    certificate_bytes: &Vec<u8>,
    keystore_bytes: &Vec<u8>,
    identity_format: &IdentityFormat,
    request: &ConnectionRequest,
) -> (r: Result<reqwest::blocking::Client, ApplicationError>)
    ensures
        r is Ok ==> request_material_accepted(
            certificate_bytes@,
            keystore_bytes@,
            *identity_format,
            request.keystore_password@,
            request.proxy_url.deep_view(),
        ),
        !pem_cert_parses(certificate_bytes@) ==> r is Err,
        pem_cert_parses(certificate_bytes@) && !identity_parses(
            *identity_format,
            keystore_bytes@,
            request.keystore_password@,
        ) ==> r is Err,
        (request.proxy_url matches Some(u) && !proxy_url_parses(u@)) ==> r is Err,
        r matches Err(e) ==> e.logdata is None,
{
    let certificate = match get_certificate(certificate_bytes) {
        Ok(certificate) => certificate,
        Err(error) => return Err(error),
    };
    let identity = match decode_identity(
        identity_format,
        keystore_bytes,
        request.keystore_password.as_str(),
    ) {
        Ok(identity) => identity,
        Err(error) => return Err(error),
    };
    let policy = resolve_policy(
        request.check_hostname,
        request.use_inbuilt_root_certs,
        request.use_https_only,
        request.use_tls_sni,
    );
    let builder = apply_policy(get_clientbuilder(), certificate, identity, &policy);
    let builder = match &request.proxy_url {
        Some(proxy_url) => {
            let proxy = match get_proxy(proxy_url.as_str()) {
                Ok(proxy) => proxy,
                Err(error) => return Err(error),
            };
            builder_proxy(builder, proxy)
        },
        None => builder,
    };
    match builder_build(builder) {
        Ok(client) => Ok(client),
        Err(error) => Err(ApplicationError::new(error, None)),
    }
}

} // verus!
