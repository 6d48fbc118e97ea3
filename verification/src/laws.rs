//! The laws of the combination policy, stated and proved against the fold
//! of `status_manager`.
//!
//! Each law quantifies over whole cycles: arbitrary check names, reasons
//! and result lists. Scenario-sized instances of them live in the test
//! suite; what is proved here holds for every cycle.

use vstd::prelude::*;

use crate::check_result::CheckResultView;
use crate::status_holder::{ApiResponseCode, FailingCheckView, StatusResultsView};
use crate::status_manager::{
    error_reason,
    spec_failed_checks,
    spec_fold_results,
    spec_response_code,
};

verus! {

/// Whether the fold visits the result after this one: everything except an
/// exclusive outcome.
pub open spec fn passes_through(r: Result<CheckResultView, Seq<char>>) -> bool {
    match r {
        Ok(res) => !res.ignore_other_results,
        Err(_) => true,
    }
}

/// The failing entry a visited result contributes on its own: its reason
/// under its check's name, an error wrapped as a failure, nothing for a
/// success.
pub open spec fn entry_for(name: Seq<char>, r: Result<CheckResultView, Seq<char>>) -> Option<
    FailingCheckView,
> {
    match r {
        Ok(res) => match res.failure_reason {
            Some(reason) => Some(FailingCheckView { check_name: name, failure_reason: reason }),
            None => None,
        },
        Err(e) => Some(FailingCheckView { check_name: name, failure_reason: error_reason(e) }),
    }
}

/// The failing entries of the results from position `i` on, in order,
/// as they stand when nothing stops the fold.
pub open spec fn entries_from(
    names: Seq<Seq<char>>,
    results: Seq<Result<CheckResultView, Seq<char>>>,
    i: int,
) -> Seq<FailingCheckView>
    decreases results.len() - i when 0 <= i <= results.len()
{
    if i >= results.len() {
        Seq::empty()
    } else {
        match entry_for(names[i], results[i]) {
            Some(e) => seq![e] + entries_from(names, results, i + 1),
            None => entries_from(names, results, i + 1),
        }
    }
}

proof fn lemma_fold_all_pass(
    names: Seq<Seq<char>>,
    results: Seq<Result<CheckResultView, Seq<char>>>,
    i: int,
    acc: Seq<FailingCheckView>,
)
    requires
        names.len() == results.len(),
        0 <= i <= results.len(),
        forall|k: int| i <= k < results.len() ==> passes_through(#[trigger] results[k]),
    ensures
        spec_fold_results(names, results, i, acc) == acc + entries_from(names, results, i),
    decreases results.len() - i,
{
    if i >= results.len() {
        assert(acc + entries_from(names, results, i) =~= acc);
    } else {
        match results[i] {
            Ok(res) => match res.failure_reason {
                Some(reason) => {
                    let e = FailingCheckView { check_name: names[i], failure_reason: reason };
                    lemma_fold_all_pass(names, results, i + 1, acc.push(e));
                    assert(acc.push(e) + entries_from(names, results, i + 1) =~= acc + (seq![e]
                        + entries_from(names, results, i + 1)));
                },
                None => {
                    lemma_fold_all_pass(names, results, i + 1, acc);
                },
            },
            Err(err) => {
                let e = FailingCheckView {
                    check_name: names[i],
                    failure_reason: error_reason(err),
                };
                lemma_fold_all_pass(names, results, i + 1, acc.push(e));
                assert(acc.push(e) + entries_from(names, results, i + 1) =~= acc + (seq![e]
                    + entries_from(names, results, i + 1)));
            },
        }
    }
}

proof fn lemma_fold_stops(
    names: Seq<Seq<char>>,
    results: Seq<Result<CheckResultView, Seq<char>>>,
    i: int,
    m: int,
    acc: Seq<FailingCheckView>,
)
    requires
        names.len() == results.len(),
        0 <= i <= m < results.len(),
        forall|k: int| i <= k < m ==> passes_through(#[trigger] results[k]),
        results[m] matches Ok(res) && res.ignore_other_results,
    ensures
        spec_fold_results(names, results, i, acc) == (match results[m] {
            Ok(res) => match res.failure_reason {
                Some(reason) => seq![
                    FailingCheckView { check_name: names[m], failure_reason: reason },
                ],
                None => Seq::<FailingCheckView>::empty(),
            },
            Err(_) => Seq::<FailingCheckView>::empty(),
        }),
    decreases m - i,
{
    if i < m {
        match results[i] {
            Ok(res) => match res.failure_reason {
                Some(reason) => {
                    let e = FailingCheckView { check_name: names[i], failure_reason: reason };
                    lemma_fold_stops(names, results, i + 1, m, acc.push(e));
                },
                None => {
                    lemma_fold_stops(names, results, i + 1, m, acc);
                },
            },
            Err(err) => {
                let e = FailingCheckView {
                    check_name: names[i],
                    failure_reason: error_reason(err),
                };
                lemma_fold_stops(names, results, i + 1, m, acc.push(e));
            },
        }
    }
}

/// Idempotence: two cycles folded from the same names and results carry
/// the same response code and the same failing list; only the timestamps
/// may differ.
pub proof fn lemma_cycle_idempotent(
    names: Seq<Seq<char>>,
    results: Seq<Result<CheckResultView, Seq<char>>>,
    first: StatusResultsView,
    second: StatusResultsView,
)
    requires
        first.failing_checks == spec_failed_checks(names, results),
        first.api_response_code == spec_response_code(first.failing_checks),
        second.failing_checks == spec_failed_checks(names, results),
        second.api_response_code == spec_response_code(second.failing_checks),
    ensures
        first.api_response_code == second.api_response_code,
        first.failing_checks == second.failing_checks,
{
}

/// With no exclusive result anywhere, a cycle reports exactly the failing
/// entries of its results, in registration order.
pub proof fn lemma_no_exclusive_collects_failures(
    names: Seq<Seq<char>>,
    results: Seq<Result<CheckResultView, Seq<char>>>,
)
    requires
        names.len() == results.len(),
        forall|k: int| 0 <= k < results.len() ==> passes_through(#[trigger] results[k]),
    ensures
        spec_failed_checks(names, results) == entries_from(names, results, 0),
{
    lemma_fold_all_pass(names, results, 0, Seq::empty());
    assert(Seq::<FailingCheckView>::empty() + entries_from(names, results, 0) =~= entries_from(
        names,
        results,
        0,
    ));
}

/// An exclusive successful result, first among the exclusive ones, clears
/// every failure accumulated before it: the cycle is healthy with an empty
/// failing list, whatever stands before or after it.
pub proof fn lemma_exclusive_success_clears(
    names: Seq<Seq<char>>,
    results: Seq<Result<CheckResultView, Seq<char>>>,
    m: int,
)
    requires
        names.len() == results.len(),
        0 <= m < results.len(),
        forall|k: int| 0 <= k < m ==> passes_through(#[trigger] results[k]),
        results[m] matches Ok(res) && res.ignore_other_results && res.failure_reason is None,
    ensures
        spec_failed_checks(names, results) == Seq::<FailingCheckView>::empty(),
        spec_response_code(spec_failed_checks(names, results)) == ApiResponseCode::Success,
{
    lemma_fold_stops(names, results, 0, m, Seq::empty());
}

/// An exclusive failed result, first among the exclusive ones, discards
/// everything accumulated before it and is reported alone: the cycle is
/// unavailable with exactly that one entry.
pub proof fn lemma_exclusive_failure_dominates(
    names: Seq<Seq<char>>,
    results: Seq<Result<CheckResultView, Seq<char>>>,
    m: int,
)
    requires
        names.len() == results.len(),
        0 <= m < results.len(),
        forall|k: int| 0 <= k < m ==> passes_through(#[trigger] results[k]),
        results[m] matches Ok(res) && res.ignore_other_results && res.failure_reason is Some,
    ensures
        results[m] matches Ok(res) && res.failure_reason matches Some(reason)
            && spec_failed_checks(names, results) == seq![
            FailingCheckView { check_name: names[m], failure_reason: reason },
        ],
        spec_response_code(spec_failed_checks(names, results))
            == ApiResponseCode::ServiceUnavailable,
{
    lemma_fold_stops(names, results, 0, m, Seq::empty());
}

/// Multiplicity: two non-exclusive failing results are reported as exactly
/// two entries, each under its own check's name, in order.
pub proof fn lemma_two_failures_reported(
    names: Seq<Seq<char>>,
    results: Seq<Result<CheckResultView, Seq<char>>>,
    r0: Seq<char>,
    r1: Seq<char>,
)
    requires
        names.len() == 2,
        results.len() == 2,
        results[0] matches Ok(res) && !res.ignore_other_results && res.failure_reason == Some(r0),
        results[1] matches Ok(res) && !res.ignore_other_results && res.failure_reason == Some(r1),
    ensures
        spec_failed_checks(names, results) == seq![
            FailingCheckView { check_name: names[0], failure_reason: r0 },
            FailingCheckView { check_name: names[1], failure_reason: r1 },
        ],
        spec_response_code(spec_failed_checks(names, results))
            == ApiResponseCode::ServiceUnavailable,
{
    lemma_no_exclusive_collects_failures(names, results);
    let e0 = FailingCheckView { check_name: names[0], failure_reason: r0 };
    let e1 = FailingCheckView { check_name: names[1], failure_reason: r1 };
    assert(entries_from(names, results, 2) =~= Seq::<FailingCheckView>::empty());
    assert(entries_from(names, results, 1) =~= seq![e1]);
    assert(entries_from(names, results, 0) =~= seq![e0, e1]);
}

/// Error as failure: a check whose execution errs contributes exactly one
/// failing entry, under its name, whose reason wraps the error text; the
/// cycle is unavailable.
pub proof fn lemma_error_reported_as_failure(
    names: Seq<Seq<char>>,
    results: Seq<Result<CheckResultView, Seq<char>>>,
    e: Seq<char>,
)
    requires
        names.len() == 1,
        results.len() == 1,
        results[0] == Err::<CheckResultView, Seq<char>>(e),
    ensures
        spec_failed_checks(names, results) == seq![
            FailingCheckView { check_name: names[0], failure_reason: error_reason(e) },
        ],
        spec_response_code(spec_failed_checks(names, results))
            == ApiResponseCode::ServiceUnavailable,
{
    lemma_no_exclusive_collects_failures(names, results);
    let e0 = FailingCheckView { check_name: names[0], failure_reason: error_reason(e) };
    assert(entries_from(names, results, 1) =~= Seq::<FailingCheckView>::empty());
    assert(entries_from(names, results, 0) =~= seq![e0]);
}

/// Vacuous success: a cycle with no checks configured is healthy with an
/// empty failing list.
pub proof fn lemma_vacuous_success(
    names: Seq<Seq<char>>,
    results: Seq<Result<CheckResultView, Seq<char>>>,
)
    requires
        names.len() == 0,
        results.len() == 0,
    ensures
        spec_failed_checks(names, results) == Seq::<FailingCheckView>::empty(),
        spec_response_code(spec_failed_checks(names, results)) == ApiResponseCode::Success,
{
    assert(spec_failed_checks(names, results) =~= Seq::<FailingCheckView>::empty());
}

} // verus!
