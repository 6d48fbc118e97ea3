//! The HTTP probe: URL validation, request building, and response
//! classification.

use easycheck::http_check::{parse_http_url, parse_status_line, HttpResponseCheck};
use easycheck::options::{ConfigError, Options, ProxyProtocolVersion};

fn options_with_url(url: &str) -> Options {
    Options {
        bind_host: String::from("127.0.0.1:8080"),
        revalidate_interval_seconds: 5,
        force_success_file_path: None,
        mtc_check_file_path: None,
        socket_check_addr: None,
        socket_check_read_initial_response: None,
        http_check_url: Some(String::from(url)),
        http_check_method: None,
        http_check_response_codes: None,
        http_proxy_protocol_version: None,
    }
}

fn built(url: &str) -> HttpResponseCheck {
    HttpResponseCheck::from_options(&options_with_url(url))
        .unwrap()
        .unwrap()
}

#[test]
fn url_with_port_and_path_parses() {
    let t = parse_http_url(&String::from("http://127.0.0.1:8080/health?deep=1")).unwrap();
    assert_eq!(t.addr.ip, [127, 0, 0, 1]);
    assert_eq!(t.addr.port, 8080);
    assert_eq!(t.host, b"127.0.0.1:8080".to_vec());
    assert_eq!(t.path, b"/health?deep=1".to_vec());
}

#[test]
fn url_without_port_defaults_to_80() {
    let t = parse_http_url(&String::from("http://192.168.1.10/")).unwrap();
    assert_eq!(t.addr.ip, [192, 168, 1, 10]);
    assert_eq!(t.addr.port, 80);
    assert_eq!(t.host, b"192.168.1.10".to_vec());
    assert_eq!(t.path, b"/".to_vec());
}

#[test]
fn url_without_path_normalizes_to_slash() {
    let t = parse_http_url(&String::from("http://10.0.0.1:9000")).unwrap();
    assert_eq!(t.addr.port, 9000);
    assert_eq!(t.path, b"/".to_vec());
}

#[test]
fn url_with_hostname_is_rejected() {
    assert!(parse_http_url(&String::from("http://localhost:8080/")).is_none());
    assert!(parse_http_url(&String::from("http://example.com/")).is_none());
}

#[test]
fn url_with_other_scheme_is_rejected() {
    assert!(parse_http_url(&String::from("https://127.0.0.1/")).is_none());
    assert!(parse_http_url(&String::from("ftp://127.0.0.1/")).is_none());
    assert!(parse_http_url(&String::from("127.0.0.1:8080")).is_none());
}

#[test]
fn url_with_bad_octet_or_port_is_rejected() {
    assert!(parse_http_url(&String::from("http://300.0.0.1/")).is_none());
    assert!(parse_http_url(&String::from("http://1.2.3/")).is_none());
    assert!(parse_http_url(&String::from("http://1.2.3.4.5/")).is_none());
    assert!(parse_http_url(&String::from("http://127.0.0.1:70000/")).is_none());
    assert!(parse_http_url(&String::from("http://127.0.0.1:/")).is_none());
    assert!(parse_http_url(&String::from("http:///")).is_none());
}

#[test]
fn invalid_url_reported_as_config_error() {
    let r = HttpResponseCheck::from_options(&options_with_url("http://backend.internal/"));
    assert!(matches!(r, Err(ConfigError::InvalidHttpUrl)));
}

#[test]
fn invalid_method_reported_as_config_error() {
    let mut o = options_with_url("http://127.0.0.1/");
    o.http_check_method = Some(String::from("NOT A TOKEN"));
    let r = HttpResponseCheck::from_options(&o);
    assert!(matches!(r, Err(ConfigError::InvalidHttpMethod)));
    let mut empty = options_with_url("http://127.0.0.1/");
    empty.http_check_method = Some(String::new());
    assert!(matches!(
        HttpResponseCheck::from_options(&empty),
        Err(ConfigError::InvalidHttpMethod)
    ));
}

#[test]
fn invalid_status_code_reported_as_config_error() {
    let mut o = options_with_url("http://127.0.0.1/");
    o.http_check_response_codes = Some(vec![200, 99]);
    let r = HttpResponseCheck::from_options(&o);
    assert!(matches!(r, Err(ConfigError::InvalidHttpStatusCode)));
}

#[test]
fn absent_url_disables_the_check() {
    let mut o = options_with_url("http://127.0.0.1/");
    o.http_check_url = None;
    let r = HttpResponseCheck::from_options(&o).unwrap();
    assert!(r.is_none());
}

#[test]
fn accepted_code_is_success() {
    let check = built("http://127.0.0.1:8080/");
    let outcome = check.classify_response(200);
    assert_eq!(outcome.failure_reason, None);
    assert!(!outcome.ignore_other_results);
}

#[test]
fn rejected_code_reports_the_literal_status() {
    let check = built("http://127.0.0.1:8080/");
    let outcome = check.classify_response(500);
    let reason = outcome.failure_reason.expect("500 must fail against {200}");
    assert_eq!(reason, "received status 500");
    assert!(reason.contains("500"));
    assert!(!outcome.ignore_other_results);
}

#[test]
fn custom_accepted_codes_classify_204_as_success() {
    let mut o = options_with_url("http://127.0.0.1:8080/");
    o.http_check_response_codes = Some(vec![200, 204]);
    let check = HttpResponseCheck::from_options(&o).unwrap().unwrap();
    assert_eq!(check.classify_response(204).failure_reason, None);
    assert_eq!(check.classify_response(200).failure_reason, None);
    assert!(check.classify_response(301).failure_reason.is_some());
}

#[test]
fn check_name_names_the_endpoint() {
    let check = built("http://127.0.0.1:8080/health");
    assert_eq!(
        check.check_name(),
        "http endpoint check http://127.0.0.1:8080/health"
    );
}

#[test]
fn default_request_is_get_with_host_header() {
    let check = built("http://127.0.0.1:8080/health");
    let expected = b"GET /health HTTP/1.1\r\nHost: 127.0.0.1:8080\r\nConnection: close\r\n\r\n";
    assert_eq!(check.request_bytes(), expected.to_vec());
}

#[test]
fn configured_method_appears_in_request() {
    let mut o = options_with_url("http://127.0.0.1/");
    o.http_check_method = Some(String::from("HEAD"));
    let check = HttpResponseCheck::from_options(&o).unwrap().unwrap();
    let expected = b"HEAD / HTTP/1.1\r\nHost: 127.0.0.1\r\nConnection: close\r\n\r\n";
    assert_eq!(check.request_bytes(), expected.to_vec());
}

#[test]
fn wire_bytes_without_preamble_are_the_request() {
    let check = built("http://127.0.0.1:8080/");
    assert_eq!(check.wire_bytes(), check.request_bytes());
    assert_eq!(check.proxy_version, None);
}

#[test]
fn proxy_version_is_carried_from_options() {
    let mut o = options_with_url("http://127.0.0.1/");
    o.http_proxy_protocol_version = Some(ProxyProtocolVersion::V2);
    let check = HttpResponseCheck::from_options(&o).unwrap().unwrap();
    assert_eq!(check.proxy_version, Some(ProxyProtocolVersion::V2));
}

#[test]
fn status_line_parses_the_code() {
    assert_eq!(
        parse_status_line(&b"HTTP/1.1 200 OK\r\nContent-Length: 0\r\n\r\n".to_vec()),
        Some(200)
    );
    assert_eq!(parse_status_line(&b"HTTP/1.1 503 Service Unavailable\r\n".to_vec()), Some(503));
    assert_eq!(parse_status_line(&b"HTTP/1.1 204".to_vec()), Some(204));
}

#[test]
fn malformed_status_line_is_rejected() {
    assert_eq!(parse_status_line(&b"HTTP/1.1".to_vec()), None);
    assert_eq!(parse_status_line(&b"HTTP/1.1 20".to_vec()), None);
    assert_eq!(parse_status_line(&b"HTTP/1.1 xyz".to_vec()), None);
    assert_eq!(parse_status_line(&b"HTTP/1.1 099 Low".to_vec()), None);
    assert_eq!(parse_status_line(&b"".to_vec()), None);
}
