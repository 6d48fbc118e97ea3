//! Cycle-level behaviour of the aggregation engine: fold policy, verdict
//! invariant, initial state, and the published holder.

use easycheck::check_result::StatusCheckResult;
use easycheck::file_checks::{ForceSuccessFileCheck, MtcFileCheck};
use easycheck::options::Options;
use easycheck::status_checker::StatusChecker;
use easycheck::status_holder::{ApiResponseCode, StatusCheckResults, StatusHolder};
use easycheck::status_manager::StatusManager;

fn base_options() -> Options {
    Options {
        bind_host: String::from("127.0.0.1:8080"),
        revalidate_interval_seconds: 5,
        force_success_file_path: None,
        mtc_check_file_path: None,
        socket_check_addr: None,
        socket_check_read_initial_response: None,
        http_check_url: None,
        http_check_method: None,
        http_check_response_codes: None,
        http_proxy_protocol_version: None,
    }
}

fn two_file_checkers() -> Vec<StatusChecker> {
    vec![
        StatusChecker::ForceSuccessFile(ForceSuccessFileCheck {
            file_path: String::from("easycheck.success"),
        }),
        StatusChecker::MtcFile(MtcFileCheck {
            file_path: String::from("easycheck.disabled"),
        }),
    ]
}

#[test]
fn initial_state_returns_503() {
    let initial = StatusCheckResults::new_initial_failed(7);
    assert_eq!(initial.timestamp, 7);
    assert_eq!(initial.api_response_code, ApiResponseCode::ServiceUnavailable);
    assert_eq!(initial.api_response_code.as_u16(), 503);
    assert_eq!(initial.failing_checks.len(), 1);
    assert_eq!(initial.failing_checks[0].check_name, "Initial Check");
    assert_eq!(
        initial.failing_checks[0].failure_reason,
        "Cannot determine status: checks weren't executed yet"
    );
}

#[test]
fn initial_state_read_through_holder() {
    let holder = StatusHolder::new_initial_failed(0);
    let status = holder.current_status();
    assert_eq!(status.api_response_code.as_u16(), 503);
    assert_eq!(status.failing_checks.len(), 1);
    assert_eq!(status.failing_checks[0].check_name, "Initial Check");
}

#[test]
fn healthy_after_first_check_cycle() {
    let manager = StatusManager::from_options(&base_options(), 0).unwrap();
    assert_eq!(manager.status_checker.len(), 2);
    let results = vec![
        Ok(StatusCheckResult::new_success()),
        Ok(StatusCheckResult::new_success()),
    ];
    let published = manager.execute_status_checks(&results, 10);
    assert_eq!(published.api_response_code, ApiResponseCode::Success);
    assert_eq!(published.api_response_code.as_u16(), 200);
    assert!(published.failing_checks.is_empty());
    assert_eq!(published.timestamp, 10);
    let read_back = manager.status_holder().current_status();
    assert_eq!(read_back.api_response_code, ApiResponseCode::Success);
    assert!(read_back.failing_checks.is_empty());
}

#[test]
fn idempotent_cycles_differ_only_in_timestamp() {
    let manager = StatusManager {
        status_checker: two_file_checkers(),
        status_holder: StatusHolder::new_initial_failed(0),
    };
    let results = || {
        vec![
            Ok(StatusCheckResult::new_success()),
            Ok(StatusCheckResult::new_failure(String::from("mtc file exists"))),
        ]
    };
    let first = manager.execute_status_checks(&results(), 100);
    let second = manager.execute_status_checks(&results(), 200);
    assert_eq!(first.api_response_code, second.api_response_code);
    assert_eq!(first.failing_checks.len(), second.failing_checks.len());
    assert_eq!(
        first.failing_checks[0].check_name,
        second.failing_checks[0].check_name
    );
    assert_eq!(
        first.failing_checks[0].failure_reason,
        second.failing_checks[0].failure_reason
    );
    assert_ne!(first.timestamp, second.timestamp);
}

#[test]
fn zero_probes_vacuous_success() {
    let manager = StatusManager {
        status_checker: vec![],
        status_holder: StatusHolder::new_initial_failed(0),
    };
    let published = manager.execute_status_checks(&vec![], 5);
    assert_eq!(published.api_response_code, ApiResponseCode::Success);
    assert!(published.failing_checks.is_empty());
}

#[test]
fn exclusive_success_first_clears_later_failure() {
    let manager = StatusManager {
        status_checker: two_file_checkers(),
        status_holder: StatusHolder::new_initial_failed(0),
    };
    let results = vec![
        Ok(StatusCheckResult::new_success().ignore_other_results()),
        Ok(StatusCheckResult::new_failure(String::from("always fails"))),
    ];
    let published = manager.execute_status_checks(&results, 0);
    assert_eq!(published.api_response_code, ApiResponseCode::Success);
    assert!(published.failing_checks.is_empty());
}

#[test]
fn exclusive_success_after_failure_still_clears() {
    let manager = StatusManager {
        status_checker: two_file_checkers(),
        status_holder: StatusHolder::new_initial_failed(0),
    };
    let results = vec![
        Ok(StatusCheckResult::new_failure(String::from("always fails"))),
        Ok(StatusCheckResult::new_success().ignore_other_results()),
    ];
    let published = manager.execute_status_checks(&results, 0);
    assert_eq!(published.api_response_code, ApiResponseCode::Success);
    assert!(published.failing_checks.is_empty());
}

#[test]
fn exclusive_failure_reported_alone() {
    let manager = StatusManager {
        status_checker: two_file_checkers(),
        status_holder: StatusHolder::new_initial_failed(0),
    };
    let results = vec![
        Ok(StatusCheckResult::new_failure(String::from("first failure"))),
        Ok(StatusCheckResult::new_failure(String::from("dominant failure")).ignore_other_results()),
    ];
    let published = manager.execute_status_checks(&results, 0);
    assert_eq!(published.api_response_code, ApiResponseCode::ServiceUnavailable);
    assert_eq!(published.failing_checks.len(), 1);
    assert_eq!(published.failing_checks[0].check_name, "mtc file");
    assert_eq!(published.failing_checks[0].failure_reason, "dominant failure");
}

#[test]
fn two_failures_reported_in_order_with_names() {
    let manager = StatusManager {
        status_checker: two_file_checkers(),
        status_holder: StatusHolder::new_initial_failed(0),
    };
    let results = vec![
        Ok(StatusCheckResult::new_failure(String::from("first reason"))),
        Ok(StatusCheckResult::new_failure(String::from("second reason"))),
    ];
    let published = manager.execute_status_checks(&results, 0);
    assert_eq!(published.api_response_code.as_u16(), 503);
    assert_eq!(published.failing_checks.len(), 2);
    assert_eq!(published.failing_checks[0].check_name, "force success file");
    assert_eq!(published.failing_checks[0].failure_reason, "first reason");
    assert_eq!(published.failing_checks[1].check_name, "mtc file");
    assert_eq!(published.failing_checks[1].failure_reason, "second reason");
}

#[test]
fn execution_error_becomes_failure_entry() {
    let manager = StatusManager {
        status_checker: vec![StatusChecker::MtcFile(MtcFileCheck {
            file_path: String::from("easycheck.disabled"),
        })],
        status_holder: StatusHolder::new_initial_failed(0),
    };
    let results = vec![Err(String::from("task could not be scheduled"))];
    let published = manager.execute_status_checks(&results, 0);
    assert_eq!(published.api_response_code, ApiResponseCode::ServiceUnavailable);
    assert_eq!(published.failing_checks.len(), 1);
    assert_eq!(published.failing_checks[0].check_name, "mtc file");
    assert_eq!(
        published.failing_checks[0].failure_reason,
        "check failed with error: task could not be scheduled"
    );
    assert!(published.failing_checks[0]
        .failure_reason
        .contains("task could not be scheduled"));
}

#[test]
fn published_verdict_replaces_holder_contents() {
    let manager = StatusManager {
        status_checker: two_file_checkers(),
        status_holder: StatusHolder::new_initial_failed(0),
    };
    let failing = vec![
        Ok(StatusCheckResult::new_failure(String::from("broken"))),
        Ok(StatusCheckResult::new_success()),
    ];
    manager.execute_status_checks(&failing, 1);
    let first = manager.status_holder().current_status();
    assert_eq!(first.api_response_code.as_u16(), 503);
    assert_eq!(first.failing_checks.len(), 1);
    let healthy = vec![
        Ok(StatusCheckResult::new_success()),
        Ok(StatusCheckResult::new_success()),
    ];
    manager.execute_status_checks(&healthy, 2);
    let second = manager.status_holder().current_status();
    assert_eq!(second.api_response_code.as_u16(), 200);
    assert!(second.failing_checks.is_empty());
    assert_eq!(second.timestamp, 2);
}

#[test]
fn success_result_carries_no_reason() {
    let r = StatusCheckResult::new_success();
    assert_eq!(r.failure_reason, None);
    assert!(!r.ignore_other_results);
    let exclusive = StatusCheckResult::new_success().ignore_other_results();
    assert_eq!(exclusive.failure_reason, None);
    assert!(exclusive.ignore_other_results);
}

#[test]
fn failure_result_keeps_reason_through_exclusivity() {
    let r = StatusCheckResult::new_failure(String::from("why")).ignore_other_results();
    assert_eq!(r.failure_reason, Some(String::from("why")));
    assert!(r.ignore_other_results);
}
