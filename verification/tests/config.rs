//! Probe construction from options: enablement, defaults, registration
//! order, and the marker-file decision rules.

use easycheck::check_result::StatusCheckResult;
use easycheck::file_checks::{FileStat, ForceSuccessFileCheck, MtcFileCheck};
use easycheck::net_addr::SockAddr;
use easycheck::options::{ConfigError, Options, ProxyProtocolVersion};
use easycheck::status_checker::StatusChecker;
use easycheck::status_manager::StatusManager;

fn base_options() -> Options {
    Options {
        bind_host: String::from("127.0.0.1:8080"),
        revalidate_interval_seconds: 5,
        force_success_file_path: None,
        mtc_check_file_path: None,
        socket_check_addr: None,
        socket_check_read_initial_response: None,
        http_check_url: None,
        http_check_method: None,
        http_check_response_codes: None,
        http_proxy_protocol_version: None,
    }
}

#[test]
fn file_checks_use_default_paths() {
    let o = base_options();
    let force = ForceSuccessFileCheck::from_options(&o).unwrap().unwrap();
    assert_eq!(force.file_path, "easycheck.success");
    assert_eq!(force.check_name(), "force success file");
    let mtc = MtcFileCheck::from_options(&o).unwrap().unwrap();
    assert_eq!(mtc.file_path, "easycheck.disabled");
    assert_eq!(mtc.check_name(), "mtc file");
}

#[test]
fn file_checks_take_configured_paths() {
    let mut o = base_options();
    o.force_success_file_path = Some(String::from("/run/markers/ok"));
    o.mtc_check_file_path = Some(String::from("/run/markers/maintenance"));
    let force = ForceSuccessFileCheck::from_options(&o).unwrap().unwrap();
    assert_eq!(force.file_path, "/run/markers/ok");
    let mtc = MtcFileCheck::from_options(&o).unwrap().unwrap();
    assert_eq!(mtc.file_path, "/run/markers/maintenance");
}

#[test]
fn force_success_marker_present_is_exclusive_success() {
    let check = ForceSuccessFileCheck {
        file_path: String::from("easycheck.success"),
    };
    let present = check.evaluate(&FileStat::Present);
    assert_eq!(present.failure_reason, None);
    assert!(present.ignore_other_results);
    let missing = check.evaluate(&FileStat::Missing);
    assert_eq!(missing.failure_reason, None);
    assert!(!missing.ignore_other_results);
    let errored = check.evaluate(&FileStat::StatError(String::from("permission denied")));
    assert_eq!(errored.failure_reason, None);
    assert!(!errored.ignore_other_results);
}

#[test]
fn mtc_marker_present_fails_the_check() {
    let check = MtcFileCheck {
        file_path: String::from("easycheck.disabled"),
    };
    let present = check.evaluate(&FileStat::Present);
    assert_eq!(present.failure_reason, Some(String::from("mtc file exists")));
    assert!(!present.ignore_other_results);
    let missing = check.evaluate(&FileStat::Missing);
    assert_eq!(missing.failure_reason, None);
    let errored = check.evaluate(&FileStat::StatError(String::from("permission denied")));
    assert_eq!(
        errored.failure_reason,
        Some(String::from("unable to query mtc existence: permission denied"))
    );
}

#[test]
fn manager_registers_enabled_checks_in_fixed_order() {
    let mut o = base_options();
    o.http_check_url = Some(String::from("http://127.0.0.1:8080/health"));
    o.socket_check_addr = Some(SockAddr { ip: [127, 0, 0, 1], port: 2525 });
    let manager = StatusManager::from_options(&o, 0).unwrap();
    assert_eq!(manager.status_checker.len(), 4);
    assert!(matches!(
        manager.status_checker[0],
        StatusChecker::ForceSuccessFile(_)
    ));
    assert!(matches!(manager.status_checker[1], StatusChecker::MtcFile(_)));
    assert!(matches!(
        manager.status_checker[2],
        StatusChecker::HttpResponse(_)
    ));
    assert!(matches!(
        manager.status_checker[3],
        StatusChecker::NetworkConnection(_)
    ));
    assert_eq!(
        manager.status_checker[2].check_name(),
        "http endpoint check http://127.0.0.1:8080/health"
    );
    assert_eq!(
        manager.status_checker[3].check_name(),
        "network connection check 127.0.0.1:2525"
    );
}

#[test]
fn manager_without_optional_checks_keeps_the_file_checks() {
    let manager = StatusManager::from_options(&base_options(), 0).unwrap();
    assert_eq!(manager.status_checker.len(), 2);
    assert_eq!(manager.status_checker[0].check_name(), "force success file");
    assert_eq!(manager.status_checker[1].check_name(), "mtc file");
}

#[test]
fn manager_propagates_http_config_errors() {
    let mut o = base_options();
    o.http_check_url = Some(String::from("http://not-an-ip/"));
    assert!(matches!(
        StatusManager::from_options(&o, 0),
        Err(ConfigError::InvalidHttpUrl)
    ));
    o.http_check_url = Some(String::from("http://127.0.0.1/"));
    o.http_check_method = Some(String::from("GE T"));
    assert!(matches!(
        StatusManager::from_options(&o, 0),
        Err(ConfigError::InvalidHttpMethod)
    ));
    o.http_check_method = None;
    o.http_check_response_codes = Some(vec![1000]);
    assert!(matches!(
        StatusManager::from_options(&o, 0),
        Err(ConfigError::InvalidHttpStatusCode)
    ));
}

#[test]
fn config_error_descriptions_are_operator_readable() {
    assert_eq!(
        ConfigError::InvalidHttpUrl.describe(),
        "http check url must have the form http://<numeric-ipv4>[:port][/path]"
    );
    assert_eq!(
        ConfigError::InvalidHttpMethod.describe(),
        "http check method must be a non-empty token"
    );
    assert_eq!(
        ConfigError::InvalidHttpStatusCode.describe(),
        "http check response codes must be between 100 and 999"
    );
}

#[test]
fn proxy_version_options_compare() {
    assert_eq!(ProxyProtocolVersion::V1, ProxyProtocolVersion::V1);
    assert_ne!(ProxyProtocolVersion::V1, ProxyProtocolVersion::V2);
}

#[test]
fn outcome_constructors_compose() {
    let failure = StatusCheckResult::new_failure(String::from("marker present"));
    assert_eq!(failure.failure_reason, Some(String::from("marker present")));
    assert!(!failure.ignore_other_results);
    let exclusive = failure.ignore_other_results();
    assert!(exclusive.ignore_other_results);
    assert_eq!(exclusive.failure_reason, Some(String::from("marker present")));
}
