//! The closed set of status checks the engine can run.
//!
//! Each variant is one probe kind; the engine owns an ordered collection of
//! them, fixed at construction. Dispatching through a closed enum keeps
//! every probe's name and decision rule visible to verification.

use vstd::prelude::*;

use crate::file_checks::{ForceSuccessFileCheck, MtcFileCheck};
use crate::http_check::HttpResponseCheck;
use crate::tcp_check::NetworkConnectionCheck;

verus! {

/// One configured status check.
pub enum StatusChecker {
    /// The force-success marker file check.
    ForceSuccessFile(ForceSuccessFileCheck),
    /// The maintenance marker file check.
    MtcFile(MtcFileCheck),
    /// The HTTP response check.
    HttpResponse(HttpResponseCheck),
    /// The TCP liveness check.
    NetworkConnection(NetworkConnectionCheck),
}

impl StatusChecker {
    /// The stable display name of the check, used to report its failures.
    pub open spec fn spec_check_name(self) -> Seq<char> {
        match self {
            StatusChecker::ForceSuccessFile(_) => "force success file"@,
            StatusChecker::MtcFile(_) => "mtc file"@,
            StatusChecker::HttpResponse(c) => c.spec_check_name(),
            StatusChecker::NetworkConnection(c) => c.spec_check_name(),
        }
    }

    /// The stable display name of the check, used to report its failures.
    pub fn check_name(&self) -> (s: String)
        ensures
            s@ == self.spec_check_name(),
    {
        match self {
            StatusChecker::ForceSuccessFile(c) => c.check_name(),
            StatusChecker::MtcFile(c) => c.check_name(),
            StatusChecker::HttpResponse(c) => c.check_name(),
            StatusChecker::NetworkConnection(c) => c.check_name(),
        }
    }
}

} // verus!
