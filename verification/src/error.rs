//! The structured error returned to the caller at every stage of the probe
//! pipeline: a message plus whatever diagnostic-log snapshot was available
//! when the failure happened.

use vstd::prelude::*;

verus! {

/// Error handed back to the shell: a human-readable message and, where one
/// could be taken, a snapshot of the diagnostic log at the time of failure.
#[derive(Debug)]
pub struct ApplicationError {
    pub error: String,
    pub logdata: Option<String>,
}

impl ApplicationError {
    /// Builds an error from a message and an optional log snapshot.
    pub fn new(error: String, logdata: Option<String>) -> (r: ApplicationError)
        ensures
            r.error == error,
            r.logdata == logdata,
    {
        ApplicationError { error, logdata }
    }
}

} // verus!
