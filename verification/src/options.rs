//! The immutable configuration record the probes are built from.
//!
//! Every option is either a plain value or an explicit absence; which
//! probes are enabled follows from which options are present. How the
//! values get here (command line, environment) is the caller's business.

use vstd::prelude::*;

use crate::net_addr::SockAddr;

verus! {

/// The PROXY protocol version the HTTP probe prefixes its connection with.
#[derive(Debug, Clone, Copy, PartialEq, Eq, Structural)]
pub enum ProxyProtocolVersion {
    V1,
    V2,
}

/// The options that drive probe construction.
pub struct Options {
    /// The host the exposing HTTP endpoint binds to; unused by the probes
    /// themselves.
    pub bind_host: String,
    /// Seconds between two aggregation cycles.
    pub revalidate_interval_seconds: u64,
    /// Path of the force-success marker file.
    pub force_success_file_path: Option<String>,
    /// Path of the maintenance marker file.
    pub mtc_check_file_path: Option<String>,
    /// Target of the TCP liveness probe.
    pub socket_check_addr: Option<SockAddr>,
    /// Whether the TCP liveness probe reads a banner before sending its
    /// terminator.
    pub socket_check_read_initial_response: Option<bool>,
    /// Target URL of the HTTP probe; the probe is enabled iff present.
    pub http_check_url: Option<String>,
    /// HTTP method of the HTTP probe; `GET` when absent.
    pub http_check_method: Option<String>,
    /// Response codes the HTTP probe counts as "up"; `{200}` when absent.
    pub http_check_response_codes: Option<Vec<u16>>,
    /// PROXY protocol version to speak before the HTTP exchange, if any.
    pub http_proxy_protocol_version: Option<ProxyProtocolVersion>,
}

/// A present but malformed option. Construction fails on it: the process
/// must not start serving an undefined configuration.
#[derive(Debug, Clone, Copy, PartialEq, Eq, Structural)]
pub enum ConfigError {
    /// The HTTP probe URL does not have the form
    /// `http://<numeric-ipv4>[:port][/path]`.
    InvalidHttpUrl,
    /// The configured HTTP method is not a valid method token.
    InvalidHttpMethod,
    /// A configured "up" response code is outside `100..=999`.
    InvalidHttpStatusCode,
}

impl ConfigError {
    /// A short operator-facing description of the error.
    pub fn describe(&self) -> (s: String)
        ensures
            (match self {
                ConfigError::InvalidHttpUrl => s@ == (
                "http check url must have the form http://<numeric-ipv4>[:port][/path]"
                )@,
                ConfigError::InvalidHttpMethod => s@ == (
                "http check method must be a non-empty token"
                )@,
                ConfigError::InvalidHttpStatusCode => s@ == (
                "http check response codes must be between 100 and 999"
                )@,
            }),
    {
        match self {
            ConfigError::InvalidHttpUrl => {
                "http check url must have the form http://<numeric-ipv4>[:port][/path]".to_owned()
            },
            ConfigError::InvalidHttpMethod => {
                "http check method must be a non-empty token".to_owned()
            },
            ConfigError::InvalidHttpStatusCode => {
                "http check response codes must be between 100 and 999".to_owned()
            },
        }
    }
}

} // verus!
