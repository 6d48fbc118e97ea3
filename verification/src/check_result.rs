//! The result that a single status check reports back to the aggregation
//! engine.
//!
//! A check that is unhealthy does not raise an error: it returns a result
//! whose `failure_reason` is present. The reason is present exactly when the
//! check failed, so the representation itself keeps the invariant "a reason
//! exists iff the check failed". The `ignore_other_results` flag marks an
//! exclusive result; what an exclusive result does to the verdict is decided
//! by the aggregation fold, not here.

use vstd::prelude::*;

verus! {

/// The result of a status check.
pub struct StatusCheckResult {
    /// The reason why the status check failed. If present the check is
    /// considered as failed, if absent the check was successful.
    pub failure_reason: Option<String>,
    /// When set, this result alone determines the verdict of the cycle and
    /// the results of all checks after this one are not considered.
    pub ignore_other_results: bool,
}

/// The mathematical model of a [`StatusCheckResult`]: the reason as a
/// sequence of characters, and the exclusivity flag.
pub struct CheckResultView {
    pub failure_reason: Option<Seq<char>>,
    pub ignore_other_results: bool,
}

impl CheckResultView {
    /// A result counts as failed exactly when it carries a reason.
    pub open spec fn is_failed(self) -> bool {
        self.failure_reason is Some
    }
}

impl View for StatusCheckResult {
    type V = CheckResultView;

    open spec fn view(&self) -> CheckResultView {
        CheckResultView {
            failure_reason: match self.failure_reason {
                Some(ref s) => Some(s@),
                None => None,
            },
            ignore_other_results: self.ignore_other_results,
        }
    }
}

impl StatusCheckResult {
    /// Creates a new successful status check result.
    pub fn new_success() -> (r: Self)
        ensures
            r@ == (CheckResultView { failure_reason: None, ignore_other_results: false }),
    {
        Self { failure_reason: None, ignore_other_results: false }
    }

    /// Creates a new failed status check result using the provided reason.
    pub fn new_failure(failure_reason: String) -> (r: Self)
        ensures
            r@ == (CheckResultView {
                failure_reason: Some(failure_reason@),
                ignore_other_results: false,
            }),
    {
        Self { failure_reason: Some(failure_reason), ignore_other_results: false }
    }

    /// Marks this result as exclusive: once the aggregation engine reaches
    /// it, the results of all later checks are ignored for the cycle.
    pub fn ignore_other_results(self) -> (r: Self)
        ensures
            r@ == (CheckResultView {
                failure_reason: self@.failure_reason,
                ignore_other_results: true,
            }),
    {
        Self { failure_reason: self.failure_reason, ignore_other_results: true }
    }
}

} // verus!
