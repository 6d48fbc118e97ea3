//! The published verdict and the concurrency-safe cell that holds it.
//!
//! A verdict pairs the response code to serve with the list of failing
//! checks that led to it, under the invariant that the list is empty
//! exactly when the code is the healthy one. The holder is a
//! reader/writer-locked single cell: the aggregation engine is its sole
//! writer, any number of concurrent readers may take the current verdict,
//! and no reader ever observes a partially-written one.

use vstd::prelude::*;
use vstd::rwlock::{RwLock, RwLockPredicate};

use crate::status_checker::StatusChecker;

verus! {

/// The response code the exposure layer serves for the current verdict.
#[derive(Clone, Copy, Debug, PartialEq, Eq, Structural)]
pub enum ApiResponseCode {
    /// All checks passed: serve `200`.
    Success,
    /// At least one check failed: serve `503`.
    ServiceUnavailable,
}

impl ApiResponseCode {
    /// The numeric HTTP status code.
    pub fn as_u16(&self) -> (r: u16)
        ensures
            r == (match self {
                ApiResponseCode::Success => 200u16,
                ApiResponseCode::ServiceUnavailable => 503u16,
            }),
    {
        match self {
            ApiResponseCode::Success => 200,
            ApiResponseCode::ServiceUnavailable => 503,
        }
    }
}

/// One failing check in the published verdict.
pub struct FailingCheck {
    /// The name of the check that failed.
    pub check_name: String,
    /// A descriptive reason why the check failed.
    pub failure_reason: String,
}

/// The mathematical model of a [`FailingCheck`].
pub struct FailingCheckView {
    pub check_name: Seq<char>,
    pub failure_reason: Seq<char>,
}

impl View for FailingCheck {
    type V = FailingCheckView;

    open spec fn view(&self) -> FailingCheckView {
        FailingCheckView { check_name: self.check_name@, failure_reason: self.failure_reason@ }
    }
}

impl FailingCheck {
    /// Constructs the synthetic entry the verdict holds before any check
    /// cycle has run.
    pub fn new_initial_failed() -> (r: Self)
        ensures
            r@ == spec_initial_failing_check(),
    {
        Self {
            check_name: "Initial Check".to_owned(),
            failure_reason: "Cannot determine status: checks weren't executed yet".to_owned(),
        }
    }

    /// Constructs a new failing check info based on the given status
    /// checker and failure reason.
    pub fn new_from_check(checker: &StatusChecker, failure_reason: String) -> (r: Self)
        ensures
            r@ == (FailingCheckView {
                check_name: checker.spec_check_name(),
                failure_reason: failure_reason@,
            }),
    {
        Self { check_name: checker.check_name(), failure_reason }
    }

    /// A deep copy.
    pub fn duplicate(&self) -> (r: Self)
        ensures
            r@ == self@,
    {
        Self {
            check_name: self.check_name.clone(),
            failure_reason: self.failure_reason.clone(),
        }
    }
}

/// The synthetic failing entry meaning "no cycle has run yet".
pub open spec fn spec_initial_failing_check() -> FailingCheckView {
    FailingCheckView {
        check_name: "Initial Check"@,
        failure_reason: "Cannot determine status: checks weren't executed yet"@,
    }
}

/// One published verdict, holding a timestamp, the response code to
/// serve, and the list of failing checks behind that code.
pub struct StatusCheckResults {
    /// When the checks were last executed, in milliseconds of the caller's
    /// clock.
    pub timestamp: u64,
    /// The current response code that should be sent back by the check
    /// endpoint to the requesting client.
    pub api_response_code: ApiResponseCode,
    /// The checks that failed and lead to the changed response code. If
    /// empty, the response code is the healthy one.
    pub failing_checks: Vec<FailingCheck>,
}

/// The mathematical model of a [`StatusCheckResults`].
pub struct StatusResultsView {
    pub timestamp: u64,
    pub api_response_code: ApiResponseCode,
    pub failing_checks: Seq<FailingCheckView>,
}

impl View for StatusCheckResults {
    type V = StatusResultsView;

    open spec fn view(&self) -> StatusResultsView {
        StatusResultsView {
            timestamp: self.timestamp,
            api_response_code: self.api_response_code,
            failing_checks: Seq::new(
                self.failing_checks@.len(),
                |i: int| self.failing_checks@[i]@,
            ),
        }
    }
}

impl StatusCheckResults {
    /// The verdict invariant: the failing list is empty exactly when the
    /// code is the healthy one.
    pub open spec fn wf(self) -> bool {
        (self.api_response_code == ApiResponseCode::Success) <==> self.failing_checks@.len() == 0
    }

    /// The verdict published before any cycle has run: unavailable, with
    /// the single synthetic initial entry.
    pub fn new_initial_failed(timestamp: u64) -> (r: Self)
        ensures
            r@.timestamp == timestamp,
            r@.api_response_code == ApiResponseCode::ServiceUnavailable,
            r@.failing_checks =~= seq![spec_initial_failing_check()],
            r.wf(),
    {
        let mut failing_checks: Vec<FailingCheck> = Vec::new();
        failing_checks.push(FailingCheck::new_initial_failed());
        let r = Self {
            timestamp,
            api_response_code: ApiResponseCode::ServiceUnavailable,
            failing_checks,
        };
        proof {
            assert(r@.failing_checks =~= seq![spec_initial_failing_check()]);
        }
        r
    }

    /// A deep copy.
    pub fn duplicate(&self) -> (r: Self)
        ensures
            r@.timestamp == self@.timestamp,
            r@.api_response_code == self@.api_response_code,
            r@.failing_checks =~= self@.failing_checks,
            r.wf() == self.wf(),
    {
        let mut failing_checks: Vec<FailingCheck> = Vec::new();
        let mut i: usize = 0;
        while i < self.failing_checks.len()
            invariant
                0 <= i <= self.failing_checks@.len(),
                failing_checks@.len() == i,
                forall|j: int| 0 <= j < i ==> failing_checks@[j]@ == #[trigger] self
                    .failing_checks@[j]@,
            decreases self.failing_checks@.len() - i,
        {
            failing_checks.push(self.failing_checks[i].duplicate());
            i = i + 1;
        }
        let r = Self {
            timestamp: self.timestamp,
            api_response_code: self.api_response_code,
            failing_checks,
        };
        proof {
            assert(r@.failing_checks =~= self@.failing_checks);
        }
        r
    }
}

/// The invariant every verdict stored in the holder satisfies.
pub struct VerdictPred {}

impl RwLockPredicate<StatusCheckResults> for VerdictPred {
    open spec fn inv(self, v: StatusCheckResults) -> bool {
        v.wf()
    }
}

/// Holder of the current status check result: one reader/writer-locked
/// cell, written wholesale by the aggregation engine at the end of every
/// cycle and read by any number of concurrent callers.
pub struct StatusHolder {
    lock: RwLock<StatusCheckResults, VerdictPred>,
}

impl StatusHolder {
    /// Whether the holder's lock carries the verdict invariant.
    pub closed spec fn well_formed(self) -> bool {
        self.lock.pred() == (VerdictPred {  })
    }

    /// Creates a new status holder instance that has the initial check
    /// status set to failed.
    pub fn new_initial_failed(timestamp: u64) -> (h: Self)
        ensures
            h.well_formed(),
    {
        let initial = StatusCheckResults::new_initial_failed(timestamp);
        let lock = RwLock::new(initial, Ghost(VerdictPred {  }));
        Self { lock }
    }

    /// Reads the current status check result. Any number of callers may do
    /// this concurrently; none ever observes a partially-written verdict,
    /// and every verdict read satisfies the verdict invariant.
    pub fn current_status(&self) -> (r: StatusCheckResults)
        requires
            self.well_formed(),
        ensures
            r.wf(),
    {
        let handle = self.lock.acquire_read();
        let r = handle.borrow().duplicate();
        handle.release_read();
        r
    }

    /// Sets the current status check result, replacing the stored verdict
    /// wholesale.
    pub fn update_current_status(&self, check_results: StatusCheckResults)
        requires
            self.well_formed(),
            check_results.wf(),
    {
        let (_old_value, write_handle) = self.lock.acquire_write();
        write_handle.release_write(check_results);
    }
}

} // verus!
