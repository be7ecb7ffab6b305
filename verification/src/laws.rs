//! Properties that hold across the probe pipeline as a whole, stated over
//! the same spec functions the component contracts use.

use vstd::prelude::*;

use crate::client::request_material_accepted;
use crate::error::ApplicationError;
use crate::material::IdentityFormat;
use crate::probe::{probe_outcome_admissible, Output};

verus! {

/// The diagnostic log accumulates monotonically: appending an entry keeps
/// everything already logged, in place, and never shortens the content.
pub proof fn lemma_log_accumulates(before: Seq<char>, entry: Seq<char>)
    ensures
        (before + entry).len() >= before.len(),
        (before + entry).subrange(0, before.len() as int) == before,
{
    assert((before + entry).subrange(0, before.len() as int) =~= before);
}

/// A request whose material is rejected fails on every probe: whether the
/// material decodes depends only on the bytes, the container form and the
/// passphrase, never on the network, so two probes of the same request both
/// return an error — the network-independent half of probe idempotence.
pub proof fn lemma_rejected_request_fails_every_probe(
    certificate: Seq<u8>,
    keystore: Seq<u8>,
    format: IdentityFormat,
    passphrase: Seq<char>,
    proxy_url: Option<Seq<char>>,
    log1: Seq<char>,
    log2: Seq<char>,
    r1: Result<Output, ApplicationError>,
    r2: Result<Output, ApplicationError>,
)
    requires
        !request_material_accepted(certificate, keystore, format, passphrase, proxy_url),
        probe_outcome_admissible(certificate, keystore, format, passphrase, proxy_url, log1, r1),
        probe_outcome_admissible(certificate, keystore, format, passphrase, proxy_url, log2, r2),
    ensures
        r1 is Err,
        r2 is Err,
{
}

/// A successful probe pins the decode outcome: success is only possible with
/// every piece of material accepted, so one probe succeeding and another of
/// the same request failing can differ only in what the network did, never
/// in how the material decoded.
pub proof fn lemma_success_needs_accepted_material(
    certificate: Seq<u8>,
    keystore: Seq<u8>,
    format: IdentityFormat,
    passphrase: Seq<char>,
    proxy_url: Option<Seq<char>>,
    log: Seq<char>,
    r: Result<Output, ApplicationError>,
)
    requires
        probe_outcome_admissible(certificate, keystore, format, passphrase, proxy_url, log, r),
        r is Ok,
    ensures
        request_material_accepted(certificate, keystore, format, passphrase, proxy_url),
{
}

} // verus!
