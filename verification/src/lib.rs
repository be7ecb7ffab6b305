//! Probe engine for testing mutual-TLS connections: decodes operator-supplied
//! trust and identity material, assembles an HTTP client under an explicit TLS
//! policy, runs a single GET probe, and reports the outcome together with a
//! diagnostic log snapshot.

mod client;
mod error;
mod laws;
mod log;
mod material;
mod probe;
mod proxy;

pub use client::{get_client, resolve_policy, ConnectionRequest, TlsPolicy, TrustMode};
pub use laws::{
    lemma_log_accumulates, lemma_rejected_request_fails_every_probe,
    lemma_success_needs_accepted_material,
};
pub use error::ApplicationError;
pub use log::{get_logdata, DiagnosticLog};
pub use material::{
    decode_identity, get_certificate, get_identity, split_identity_pem, IdentityFormat,
};
pub use probe::{do_request, Output};
pub use proxy::get_proxy;
