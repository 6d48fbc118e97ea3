//! The aggregation engine: the combination policy that turns the ordered
//! probe results of one cycle into a single verdict.
//!
//! Results are folded in the probes' fixed registration order, never in
//! completion order: the caller runs the probes concurrently, waits for all
//! of them, and hands the results over as one ordered list. The policy is
//! the original fold: an error becomes a non-exclusive failure and the
//! fold continues; a non-exclusive failure is appended; the first
//! exclusive result ends the fold — a failed one replaces everything
//! accumulated with itself alone, a successful one clears everything.

use vstd::prelude::*;

use crate::check_result::{CheckResultView, StatusCheckResult};
use crate::options::{ConfigError, Options};
use crate::file_checks::{ForceSuccessFileCheck, MtcFileCheck};
use crate::http_check::HttpResponseCheck;
use crate::tcp_check::NetworkConnectionCheck;
use crate::status_checker::StatusChecker;
use crate::status_holder::{
    ApiResponseCode,
    FailingCheck,
    FailingCheckView,
    StatusCheckResults,
    StatusHolder,
};

verus! {

/// The reason reported when a check's execution itself errs instead of
/// returning an outcome.
pub open spec fn error_reason(e: Seq<char>) -> Seq<char> {
    "check failed with error: "@ + e
}

/// The fold of one cycle's results, from position `i` on, with the
/// failures accumulated so far.
///
/// Visiting a result: an execution error is recorded as a non-exclusive
/// failure wrapping its text; a non-exclusive failure is appended; a
/// non-exclusive success changes nothing; the first exclusive result stops
/// the fold, a failed one discarding everything in favour of itself and a
/// successful one discarding everything.
pub open spec fn spec_fold_results(
    names: Seq<Seq<char>>,
    results: Seq<Result<CheckResultView, Seq<char>>>,
    i: int,
    acc: Seq<FailingCheckView>,
) -> Seq<FailingCheckView>
    decreases results.len() - i when 0 <= i <= results.len()
{
    if i >= results.len() {
        acc
    } else {
        match results[i] {
            Ok(res) => match res.failure_reason {
                Some(reason) => if res.ignore_other_results {
                    seq![FailingCheckView { check_name: names[i], failure_reason: reason }]
                } else {
                    spec_fold_results(
                        names,
                        results,
                        i + 1,
                        acc.push(
                            FailingCheckView { check_name: names[i], failure_reason: reason },
                        ),
                    )
                },
                None => if res.ignore_other_results {
                    Seq::empty()
                } else {
                    spec_fold_results(names, results, i + 1, acc)
                },
            },
            Err(e) => spec_fold_results(
                names,
                results,
                i + 1,
                acc.push(
                    FailingCheckView { check_name: names[i], failure_reason: error_reason(e) },
                ),
            ),
        }
    }
}

/// The failing checks one cycle reports: the whole fold, started empty.
pub open spec fn spec_failed_checks(
    names: Seq<Seq<char>>,
    results: Seq<Result<CheckResultView, Seq<char>>>,
) -> Seq<FailingCheckView> {
    spec_fold_results(names, results, 0, Seq::empty())
}

/// The response code a failing list leads to: healthy exactly when it is
/// empty.
pub open spec fn spec_response_code(failed: Seq<FailingCheckView>) -> ApiResponseCode {
    if failed.len() == 0 {
        ApiResponseCode::Success
    } else {
        ApiResponseCode::ServiceUnavailable
    }
}

/// The display names of the checks, in registration order.
pub open spec fn checker_names(checkers: Seq<StatusChecker>) -> Seq<Seq<char>> {
    Seq::new(checkers.len(), |i: int| checkers[i].spec_check_name())
}

/// The models of one cycle's results: each an outcome or an error text.
pub open spec fn results_view(results: Seq<Result<StatusCheckResult, String>>) -> Seq<
    Result<CheckResultView, Seq<char>>,
> {
    Seq::new(
        results.len(),
        |i: int| match results[i] {
            Ok(r) => Ok(r@),
            Err(e) => Err(e@),
        },
    )
}

/// The models of recorded failing checks.
pub open spec fn failing_views(s: Seq<FailingCheck>) -> Seq<FailingCheckView> {
    Seq::new(s.len(), |i: int| s[i]@)
}

/// Folds one cycle's ordered results into the failing checks to report.
pub fn collect_failed_checks(
    checkers: &Vec<StatusChecker>,
    results: &Vec<Result<StatusCheckResult, String>>,
) -> (failed: Vec<FailingCheck>)
    requires
        results@.len() == checkers@.len(),
    ensures
        failing_views(failed@) == spec_failed_checks(
            checker_names(checkers@),
            results_view(results@),
        ),
{
    let ghost names = checker_names(checkers@);
    let ghost rviews = results_view(results@);
    let mut failed: Vec<FailingCheck> = Vec::new();
    proof {
        assert(failing_views(failed@) =~= Seq::<FailingCheckView>::empty());
    }
    let mut i: usize = 0;
    while i < checkers.len()
        invariant
            results@.len() == checkers@.len(),
            0 <= i <= checkers@.len(),
            names == checker_names(checkers@),
            rviews == results_view(results@),
            spec_failed_checks(names, rviews) == spec_fold_results(
                names,
                rviews,
                i as int,
                failing_views(failed@),
            ),
        decreases checkers@.len() - i,
    {
        match &results[i] {
            Ok(check_result) => {
                match &check_result.failure_reason {
                    Some(reason) => {
                        if check_result.ignore_other_results {
                            // failure reason is present and all other checks should be
                            // skipped; only this failure is reported
                            let fc = FailingCheck::new_from_check(&checkers[i], reason.clone());
                            let mut only: Vec<FailingCheck> = Vec::new();
                            only.push(fc);
                            proof {
                                assert(failing_views(only@) =~= seq![only@[0]@]);
                            }
                            return only;
                        } else {
                            // failure reason is present but the other checks still
                            // count; record it and continue
                            let fc = FailingCheck::new_from_check(&checkers[i], reason.clone());
                            let ghost before = failing_views(failed@);
                            failed.push(fc);
                            proof {
                                assert(failing_views(failed@) =~= before.push(
                                    failed@.last()@,
                                ));
                            }
                        }
                    },
                    None => {
                        if check_result.ignore_other_results {
                            // the check succeeded and every other result is to be
                            // dropped: the cycle is healthy
                            let empty: Vec<FailingCheck> = Vec::new();
                            proof {
                                assert(failing_views(empty@) =~= Seq::<
                                    FailingCheckView,
                                >::empty());
                            }
                            return empty;
                        }
                        // the check succeeded and the other results still count
                    },
                }
            },
            Err(error) => {
                // execution itself failed: recorded as a plain failure so the
                // cycle goes on
                let mut reason = "check failed with error: ".to_owned();
                reason.append(error.as_str());
                let fc = FailingCheck::new_from_check(&checkers[i], reason);
                let ghost before = failing_views(failed@);
                failed.push(fc);
                proof {
                    assert(failing_views(failed@) =~= before.push(failed@.last()@));
                }
            },
        }
        i = i + 1;
    }
    failed
}

/// Builds the verdict a failing list leads to: healthy exactly when the
/// list is empty.
pub fn build_check_results(failed: Vec<FailingCheck>, timestamp: u64) -> (r: StatusCheckResults)
    ensures
        r@.timestamp == timestamp,
        r@.failing_checks == failing_views(failed@),
        r@.api_response_code == spec_response_code(failing_views(failed@)),
        r.wf(),
{
    let api_response_code = if failed.len() == 0 {
        ApiResponseCode::Success
    } else {
        ApiResponseCode::ServiceUnavailable
    };
    let r = StatusCheckResults { timestamp, api_response_code, failing_checks: failed };
    proof {
        assert(r@.failing_checks =~= failing_views(r.failing_checks@));
    }
    r
}

/// The managing service for status checks: the ordered probe set, fixed at
/// construction, and the holder the verdicts are published through.
pub struct StatusManager {
    /// The status checkers that should be executed periodically to
    /// determine the status of the current instance, in registration
    /// order.
    pub status_checker: Vec<StatusChecker>,
    /// The holder for the current check status.
    pub status_holder: StatusHolder,
}

/// The configuration error construction reports, if any: the checks are
/// validated in registration order and only the HTTP check can be
/// malformed.
pub open spec fn spec_config_error(options: Options) -> Option<ConfigError> {
    match options.http_check_url {
        None => None,
        Some(url) => {
            let parsed = crate::http_check::spec_parse_url(
                crate::http_check::spec_str_bytes(url@),
            );
            let method_ok = match options.http_check_method {
                Some(m) => crate::http_check::valid_method(
                    crate::http_check::spec_str_bytes(m@),
                ),
                None => true,
            };
            let codes_ok = match options.http_check_response_codes {
                Some(cs) => crate::http_check::valid_codes(cs@),
                None => true,
            };
            if parsed is None {
                Some(ConfigError::InvalidHttpUrl)
            } else if !method_ok {
                Some(ConfigError::InvalidHttpMethod)
            } else if !codes_ok {
                Some(ConfigError::InvalidHttpStatusCode)
            } else {
                None
            }
        },
    }
}

/// How a successfully constructed probe set relates to the options: the
/// two file checks always stand first, then the HTTP check when a URL is
/// configured, then the TCP check when a socket address is configured.
pub open spec fn spec_registered(checkers: Seq<StatusChecker>, options: Options) -> bool {
    let http_on: int = if options.http_check_url is Some {
        1
    } else {
        0
    };
    let sock_on: int = if options.socket_check_addr is Some {
        1
    } else {
        0
    };
    &&& checkers.len() == 2 + http_on + sock_on
    &&& checkers[0] matches StatusChecker::ForceSuccessFile(c) && c.file_path@ == (
    match options.force_success_file_path {
        Some(p) => p@,
        None => "easycheck.success"@,
    })
    &&& checkers[1] matches StatusChecker::MtcFile(c) && c.file_path@ == (
    match options.mtc_check_file_path {
        Some(p) => p@,
        None => "easycheck.disabled"@,
    })
    &&& (options.http_check_url matches Some(url) ==> checkers[2] matches
        StatusChecker::HttpResponse(c) && crate::http_check::spec_parse_url(
        crate::http_check::spec_str_bytes(url@),
    ) matches Some(u) && c.built_from(u, options))
    &&& (options.socket_check_addr matches Some(addr) ==> checkers[2 + http_on] matches
        StatusChecker::NetworkConnection(c) && c.target_address == addr
        && c.read_initial_response == (match options.socket_check_read_initial_response {
        Some(b) => b,
        None => false,
    }))
}

impl StatusManager {
    /// Whether the manager's holder carries the verdict invariant.
    pub open spec fn well_formed(self) -> bool {
        self.status_holder.well_formed()
    }

    /// Registers a status checker in case the construction was successful
    /// and the checker had all options present to be enabled. A
    /// construction error is returned to the caller.
    pub fn register_checker_if_enabled(
        status_checker: &mut Vec<StatusChecker>,
        checker_construct_result: Result<Option<StatusChecker>, ConfigError>,
    ) -> (r: Result<(), ConfigError>)
        ensures
            (match checker_construct_result {
                Err(e) => r matches Err(x) && x == e && final(status_checker)@ == old(
                    status_checker,
                )@,
                Ok(None) => r is Ok && final(status_checker)@ == old(status_checker)@,
                Ok(Some(c)) => r is Ok && final(status_checker)@ == old(status_checker)@.push(c),
            }),
    {
        match checker_construct_result {
            Err(e) => Err(e),
            Ok(None) => Ok(()),
            Ok(Some(checker)) => {
                status_checker.push(checker);
                Ok(())
            },
        }
    }

    /// Constructs a new instance of the status manager with every enabled
    /// check registered in its fixed order. Initially all checks are
    /// considered as failed, and need to be executed before the status can
    /// change to success.
    pub fn from_options(options: &Options, timestamp: u64) -> (r: Result<Self, ConfigError>)
        ensures
            (match spec_config_error(*options) {
                Some(e) => r matches Err(x) && x == e,
                None => r matches Ok(m) && spec_registered(m.status_checker@, *options)
                    && m.well_formed(),
            }),
    {
        let mut status_checker: Vec<StatusChecker> = Vec::new();
        let force_result: Result<Option<StatusChecker>, ConfigError> = match
            ForceSuccessFileCheck::from_options(options) {
            Ok(Some(c)) => Ok(Some(StatusChecker::ForceSuccessFile(c))),
            Ok(None) => Ok(None),
            Err(e) => Err(e),
        };
        if let Err(e) = Self::register_checker_if_enabled(&mut status_checker, force_result) {
            return Err(e);
        }
        let mtc_result: Result<Option<StatusChecker>, ConfigError> = match
            MtcFileCheck::from_options(options) {
            Ok(Some(c)) => Ok(Some(StatusChecker::MtcFile(c))),
            Ok(None) => Ok(None),
            Err(e) => Err(e),
        };
        if let Err(e) = Self::register_checker_if_enabled(&mut status_checker, mtc_result) {
            return Err(e);
        }
        let http_result: Result<Option<StatusChecker>, ConfigError> = match
            HttpResponseCheck::from_options(options) {
            Ok(Some(c)) => Ok(Some(StatusChecker::HttpResponse(c))),
            Ok(None) => Ok(None),
            Err(e) => Err(e),
        };
        if let Err(e) = Self::register_checker_if_enabled(&mut status_checker, http_result) {
            return Err(e);
        }
        let network_result: Result<Option<StatusChecker>, ConfigError> = match
            NetworkConnectionCheck::from_options(options) {
            Ok(Some(c)) => Ok(Some(StatusChecker::NetworkConnection(c))),
            Ok(None) => Ok(None),
            Err(e) => Err(e),
        };
        if let Err(e) = Self::register_checker_if_enabled(&mut status_checker, network_result) {
            return Err(e);
        }
        Ok(Self { status_checker, status_holder: StatusHolder::new_initial_failed(timestamp) })
    }

    /// The holder this manager publishes through; the exposure layer reads
    /// the current verdict from it at any time.
    pub fn status_holder(&self) -> (h: &StatusHolder)
        requires
            self.well_formed(),
        ensures
            h.well_formed(),
    {
        &self.status_holder
    }

    /// Folds one cycle's ordered results into a fresh verdict, publishes
    /// it through the holder — replacing the stored verdict wholesale —
    /// and returns it.
    ///
    /// `results` holds, for each registered check in registration order,
    /// either the outcome the check returned or the text of the error its
    /// execution raised.
    pub fn execute_status_checks(
        &self,
        results: &Vec<Result<StatusCheckResult, String>>,
        timestamp: u64,
    ) -> (published: StatusCheckResults)
        requires
            self.well_formed(),
            results@.len() == self.status_checker@.len(),
        ensures
            published@.timestamp == timestamp,
            published@.failing_checks == spec_failed_checks(
                checker_names(self.status_checker@),
                results_view(results@),
            ),
            published@.api_response_code == spec_response_code(published@.failing_checks),
            published.wf(),
    {
        let failed = collect_failed_checks(&self.status_checker, results);
        let check_results = build_check_results(failed, timestamp);
        let copy = check_results.duplicate();
        self.status_holder.update_current_status(copy);
        check_results
    }
}

} // verus!
