//! Diagnostic log: an owned, append-only text buffer that accumulates
//! connection and handshake diagnostics during a probe. The caller owns one
//! instance and passes it to each probe; sharing between threads, if wanted,
//! is the caller's business (wrap it in whatever lock the host provides).

use vstd::prelude::*;
use vstd::string::StringExecFns;

use crate::error::ApplicationError;

verus! {

/// Accumulating diagnostic text. Content only grows under `append`; it is
/// never reset between probes unless `clear` is called explicitly.
pub struct DiagnosticLog {
    content: String,
}

impl View for DiagnosticLog {
    type V = Seq<char>;

    closed spec fn view(&self) -> Seq<char> {
        self.content@
    }
}

impl DiagnosticLog {
    /// An empty log, as it stands at process start.
    pub fn new() -> (r: DiagnosticLog)
        ensures
            r@ == Seq::<char>::empty(),
    {
        DiagnosticLog { content: String::new() }
    }

    /// Appends diagnostic text. The old content is kept in full: the log
    /// accumulates monotonically.
    pub fn append(&mut self, text: &str)
        ensures
            final(self)@ == old(self)@ + text@,
            final(self)@.len() >= old(self)@.len(),
    {
        self.content.append(text);
    }

    /// A snapshot: a clone of the current content, leaving the log as it is.
    pub fn snapshot(&self) -> (r: String)
        ensures
            r@ == self@,
    {
        self.content.clone()
    }

    /// Explicitly resets the log, for callers that want per-probe isolation
    /// instead of a cumulative session log.
    pub fn clear(&mut self)
        ensures
            final(self)@ == Seq::<char>::empty(),
    {
        self.content = String::new();
    }
}

/// Reads the diagnostic log for the response: a clone of the current
/// content. With the log an owned value there is no lock to poison, so this
/// always succeeds.
pub fn get_logdata(logdata: &DiagnosticLog) -> (r: Result<String, ApplicationError>)
    ensures
        r matches Ok(s) && s@ == logdata@,
{
    Ok(logdata.snapshot())
}

} // verus!
