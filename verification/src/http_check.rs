//! The HTTP response probe.
//!
//! Construction validates and precomputes everything the probe needs: the
//! target socket address taken from the URL (a numeric IPv4 host is
//! required — name resolution is out of scope, so a non-numeric host is a
//! configuration error), the `Host` header value, the request path, the
//! method and the set of response codes that count as "up". Execution is
//! one HTTP/1.1 request/response exchange that the caller performs over a
//! connection it opens itself; this module produces the exact bytes to
//! write — the optional PROXY protocol preamble followed by the request —
//! and classifies the status code the caller read back.

use vstd::prelude::*;

use crate::check_result::{CheckResultView, StatusCheckResult};
use crate::net_addr::SockAddr;
use crate::numfmt::{all_digits, checked_dec_value, dec_chars, dec_string, dec_value};
use crate::options::{ConfigError, Options, ProxyProtocolVersion};
use crate::proxy::{encode_probe_preamble, spec_probe_preamble};

verus! {

/// The UTF-8 bytes of a string, the form in which URLs and methods are
/// parsed and requests are built.
pub open spec fn spec_str_bytes(s: Seq<char>) -> Seq<u8> {
    vstd::utf8::encode_utf8(s)
}

/// The bytes of `http://`, the only scheme the probe speaks.
pub open spec fn scheme_prefix() -> Seq<u8> {
    seq![0x68u8, 0x74u8, 0x74u8, 0x70u8, 0x3au8, 0x2fu8, 0x2fu8]
}

/// The index of the first occurrence of `b` in `s` at or after `from`;
/// the length of `s` when there is none.
pub open spec fn find_byte_from(s: Seq<u8>, from: int, b: u8) -> int
    decreases s.len() - from when 0 <= from <= s.len()
{
    if from >= s.len() {
        s.len() as int
    } else if s[from] == b {
        from
    } else {
        find_byte_from(s, from + 1, b)
    }
}

/// An address octet: one to three digits denoting at most 255.
pub open spec fn parse_octet(s: Seq<u8>) -> Option<u8> {
    if 1 <= s.len() <= 3 && all_digits(s) && dec_value(s) <= 255 {
        Some(dec_value(s) as u8)
    } else {
        None
    }
}

/// A numeric IPv4 host: four octets separated by single dots.
pub open spec fn parse_ipv4(s: Seq<u8>) -> Option<[u8; 4]> {
    let n = s.len() as int;
    let d1 = find_byte_from(s, 0, 0x2e);
    if d1 == n {
        None
    } else {
        let d2 = find_byte_from(s, d1 + 1, 0x2e);
        if d2 == n {
            None
        } else {
            let d3 = find_byte_from(s, d2 + 1, 0x2e);
            if d3 == n {
                None
            } else if find_byte_from(s, d3 + 1, 0x2e) != n {
                None
            } else {
                match (
                    parse_octet(s.subrange(0, d1)),
                    parse_octet(s.subrange(d1 + 1, d2)),
                    parse_octet(s.subrange(d2 + 1, d3)),
                    parse_octet(s.subrange(d3 + 1, n)),
                ) {
                    (Some(o0), Some(o1), Some(o2), Some(o3)) => Some([o0, o1, o2, o3]),
                    _ => None,
                }
            }
        }
    }
}

/// A port: one to five digits denoting at most 65535.
pub open spec fn parse_port(s: Seq<u8>) -> Option<u16> {
    if 1 <= s.len() <= 5 && all_digits(s) && dec_value(s) <= 65535 {
        Some(dec_value(s) as u16)
    } else {
        None
    }
}

/// What URL validation precomputes: the resolved target address, the bytes
/// of the authority (the `Host` header value), and the request path,
/// normalized to start with `/`.
pub struct UrlView {
    pub addr: SockAddr,
    pub host: Seq<u8>,
    pub path: Seq<u8>,
}

/// Parses `http://<numeric-ipv4>[:port][/path]`. The port defaults to 80;
/// an absent path becomes `/`.
pub open spec fn spec_parse_url(s: Seq<u8>) -> Option<UrlView> {
    let n = s.len() as int;
    if n < 7 || s.subrange(0, 7) != scheme_prefix() {
        None
    } else {
        let auth_end = find_byte_from(s, 7, 0x2f);
        let authority = s.subrange(7, auth_end);
        let path = if auth_end == n {
            seq![0x2fu8]
        } else {
            s.subrange(auth_end, n)
        };
        let colon = find_byte_from(authority, 0, 0x3a);
        let port_opt = if colon == authority.len() as int {
            Some(80u16)
        } else {
            parse_port(authority.subrange(colon + 1, authority.len() as int))
        };
        match (parse_ipv4(authority.subrange(0, colon)), port_opt) {
            (Some(ip), Some(port)) => Some(
                UrlView { addr: SockAddr { ip, port }, host: authority, path },
            ),
            _ => None,
        }
    }
}

/// The index of the first occurrence of `b` in `v` at or after `from`;
/// the length of `v` when there is none.
fn find_byte(v: &Vec<u8>, from: usize, b: u8) -> (r: usize)
    requires
        from <= v@.len(),
    ensures
        r as int == find_byte_from(v@, from as int, b),
        from <= r <= v@.len(),
    decreases v@.len() - from,
{
    if from == v.len() {
        from
    } else if v[from] == b {
        from
    } else {
        find_byte(v, from + 1, b)
    }
}

/// The bytes `v[from..to]` as a fresh vector.
fn copy_range(v: &Vec<u8>, from: usize, to: usize) -> (r: Vec<u8>)
    requires
        from <= to <= v@.len(),
    ensures
        r@ == v@.subrange(from as int, to as int),
{
    let mut out: Vec<u8> = Vec::new();
    let mut i: usize = from;
    while i < to
        invariant
            from <= i <= to <= v@.len(),
            out@ == v@.subrange(from as int, i as int),
        decreases to - i,
    {
        out.push(v[i]);
        proof {
            assert(out@ =~= v@.subrange(from as int, i + 1));
        }
        i = i + 1;
    }
    out
}

/// Whether `v` starts with the bytes of `http://`.
fn has_scheme_prefix(v: &Vec<u8>) -> (r: bool)
    ensures
        r == (v@.len() >= 7 && v@.subrange(0, 7) == scheme_prefix()),
{
    if v.len() < 7 {
        return false;
    }
    let mut i: usize = 0;
    while i < 7
        invariant
            0 <= i <= 7,
            v@.len() >= 7,
            forall|j: int| 0 <= j < i ==> v@[j] == scheme_prefix()[j],
        decreases 7 - i,
    {
        let expected: u8 = scheme_byte(i);
        if v[i] != expected {
            proof {
                assert(v@.subrange(0, 7)[i as int] == v@[i as int]);
                assert(v@.subrange(0, 7) != scheme_prefix());
            }
            return false;
        }
        i = i + 1;
    }
    proof {
        assert(v@.subrange(0, 7) =~= scheme_prefix());
    }
    true
}

/// The byte of `http://` at position `i`.
fn scheme_byte(i: usize) -> (b: u8)
    requires
        i < 7,
    ensures
        b == scheme_prefix()[i as int],
{
    match i {
        0 => 0x68,
        1 => 0x74,
        2 => 0x74,
        3 => 0x70,
        4 => 0x3a,
        5 => 0x2f,
        _ => 0x2f,
    }
}

/// Parses one octet of a dotted IPv4 host from `v[from..to]`.
fn parse_octet_range(v: &Vec<u8>, from: usize, to: usize) -> (r: Option<u8>)
    requires
        from <= to <= v@.len(),
    ensures
        r == parse_octet(v@.subrange(from as int, to as int)),
{
    let len = to - from;
    if len < 1 || len > 3 {
        return None;
    }
    match checked_dec_value(v, from, to) {
        None => None,
        Some(val) => if val <= 255 {
            Some(val as u8)
        } else {
            None
        },
    }
}

/// Parses a numeric IPv4 host.
fn parse_ipv4_bytes(v: &Vec<u8>) -> (r: Option<[u8; 4]>)
    ensures
        (match parse_ipv4(v@) {
            None => r is None,
            Some(ip) => r matches Some(x) && x@ == ip@,
        }),
{
    let n = v.len();
    let d1 = find_byte(v, 0, 0x2e);
    if d1 == n {
        return None;
    }
    let d2 = find_byte(v, d1 + 1, 0x2e);
    if d2 == n {
        return None;
    }
    let d3 = find_byte(v, d2 + 1, 0x2e);
    if d3 == n {
        return None;
    }
    let d4 = find_byte(v, d3 + 1, 0x2e);
    if d4 != n {
        return None;
    }
    let o0 = match parse_octet_range(v, 0, d1) {
        Some(o) => o,
        None => return None,
    };
    let o1 = match parse_octet_range(v, d1 + 1, d2) {
        Some(o) => o,
        None => return None,
    };
    let o2 = match parse_octet_range(v, d2 + 1, d3) {
        Some(o) => o,
        None => return None,
    };
    let o3 = match parse_octet_range(v, d3 + 1, n) {
        Some(o) => o,
        None => return None,
    };
    let ip = [o0, o1, o2, o3];
    proof {
        assert(ip@ =~= parse_ipv4(v@).unwrap()@);
    }
    Some(ip)
}

/// The validated target parsed out of a probe URL.
pub struct HttpTarget {
    /// The socket address the probe connects to.
    pub addr: SockAddr,
    /// The `Host` header value: the authority exactly as configured.
    pub host: Vec<u8>,
    /// The request path, starting with `/`.
    pub path: Vec<u8>,
}

/// Parses `http://<numeric-ipv4>[:port][/path]` into the target the probe
/// connects to.
pub fn parse_http_url(url: &String) -> (r: Option<HttpTarget>)
    ensures
        (match spec_parse_url(spec_str_bytes(url@)) {
            None => r is None,
            Some(u) => r matches Some(t) && t.addr.ip@ == u.addr.ip@ && t.addr.port == u.addr.port
                && t.host@ == u.host && t.path@ == u.path,
        }),
{
    let bytes = url.as_str().as_bytes_vec();
    let n = bytes.len();
    if !has_scheme_prefix(&bytes) {
        return None;
    }
    let auth_end = find_byte(&bytes, 7, 0x2f);
    let authority = copy_range(&bytes, 7, auth_end);
    let path: Vec<u8> = if auth_end == n {
        let mut p: Vec<u8> = Vec::new();
        p.push(0x2f);
        proof {
            assert(p@ =~= seq![0x2fu8]);
        }
        p
    } else {
        copy_range(&bytes, auth_end, n)
    };
    let alen = authority.len();
    let colon = find_byte(&authority, 0, 0x3a);
    let port: u16 = if colon == alen {
        80
    } else {
        let pstart = colon + 1;
        let plen = alen - pstart;
        if plen < 1 || plen > 5 {
            return None;
        }
        match checked_dec_value(&authority, pstart, alen) {
            None => {
                return None;
            },
            Some(val) => if val <= 65535 {
                val as u16
            } else {
                return None;
            },
        }
    };
    let host = copy_range(&authority, 0, colon);
    match parse_ipv4_bytes(&host) {
        None => None,
        Some(ip) => Some(HttpTarget { addr: SockAddr { ip, port }, host: authority, path }),
    }
}

/// A method token byte, as HTTP grammar has it: a letter, a digit, or one
/// of the token punctuation marks.
pub open spec fn is_tchar(b: u8) -> bool {
    (0x30 <= b && b <= 0x39) || (0x41 <= b && b <= 0x5a) || (0x61 <= b && b <= 0x7a) || b == 0x21
        || b == 0x23 || b == 0x24 || b == 0x25 || b == 0x26 || b == 0x27 || b == 0x2a || b == 0x2b
        || b == 0x2d || b == 0x2e || b == 0x5e || b == 0x5f || b == 0x60 || b == 0x7c || b == 0x7e
}

/// A valid HTTP method: a non-empty token.
pub open spec fn valid_method(m: Seq<u8>) -> bool {
    m.len() > 0 && forall|i: int| 0 <= i < m.len() ==> is_tchar(#[trigger] m[i])
}

/// Whether `m` is a non-empty HTTP method token.
fn is_valid_method(m: &Vec<u8>) -> (r: bool)
    ensures
        r == valid_method(m@),
{
    if m.len() == 0 {
        return false;
    }
    let mut i: usize = 0;
    while i < m.len()
        invariant
            0 <= i <= m@.len(),
            forall|j: int| 0 <= j < i ==> is_tchar(#[trigger] m@[j]),
        decreases m@.len() - i,
    {
        let b = m[i];
        let ok = (0x30 <= b && b <= 0x39) || (0x41 <= b && b <= 0x5a) || (0x61 <= b && b <= 0x7a)
            || b == 0x21 || b == 0x23 || b == 0x24 || b == 0x25 || b == 0x26 || b == 0x27
            || b == 0x2a || b == 0x2b || b == 0x2d || b == 0x2e || b == 0x5e || b == 0x5f
            || b == 0x60 || b == 0x7c || b == 0x7e;
        if !ok {
            return false;
        }
        i = i + 1;
    }
    true
}

/// Every configured "up" code lies in the valid status code range.
pub open spec fn valid_codes(cs: Seq<u16>) -> bool {
    forall|i: int| 0 <= i < cs.len() ==> 100 <= #[trigger] cs[i] <= 999
}

/// Whether every code lies in `100..=999`.
fn codes_valid(cs: &Vec<u16>) -> (r: bool)
    ensures
        r == valid_codes(cs@),
{
    let mut i: usize = 0;
    while i < cs.len()
        invariant
            0 <= i <= cs@.len(),
            forall|j: int| 0 <= j < i ==> 100 <= #[trigger] cs@[j] <= 999,
        decreases cs@.len() - i,
    {
        let c = cs[i];
        if c < 100 || c > 999 {
            return false;
        }
        i = i + 1;
    }
    true
}

/// The codes of `cs`, copied.
fn copy_u16_vec(cs: &Vec<u16>) -> (r: Vec<u16>)
    ensures
        r@ == cs@,
{
    let mut out: Vec<u16> = Vec::new();
    let mut i: usize = 0;
    while i < cs.len()
        invariant
            0 <= i <= cs@.len(),
            out@ == cs@.subrange(0, i as int),
        decreases cs@.len() - i,
    {
        out.push(cs[i]);
        proof {
            assert(out@ =~= cs@.subrange(0, i + 1));
        }
        i = i + 1;
    }
    proof {
        assert(out@ =~= cs@);
    }
    out
}

/// Probes an HTTP endpoint and classifies its response code.
pub struct HttpResponseCheck {
    /// The configured URL, as typed, used in the display name.
    pub endpoint: String,
    /// The socket address resolved from the URL.
    pub target: SockAddr,
    /// The `Host` header value: the URL's authority.
    pub host_header: Vec<u8>,
    /// The request path, starting with `/`.
    pub path: Vec<u8>,
    /// The request method token.
    pub method: Vec<u8>,
    /// The response codes that count as "up".
    pub up_status_codes: Vec<u16>,
    /// The PROXY protocol preamble to speak first, if any.
    pub proxy_version: Option<ProxyProtocolVersion>,
}

/// The bytes of `GET`, the default method.
pub open spec fn default_method() -> Seq<u8> {
    seq![0x47u8, 0x45u8, 0x54u8]
}

impl HttpResponseCheck {
    /// How a built check relates to the options it came from.
    pub open spec fn built_from(self, u: UrlView, options: Options) -> bool {
        &&& options.http_check_url matches Some(url) && self.endpoint@ == url@
        &&& self.target.ip@ == u.addr.ip@
        &&& self.target.port == u.addr.port
        &&& self.host_header@ == u.host
        &&& self.path@ == u.path
        &&& self.method@ == (match options.http_check_method {
            Some(m) => spec_str_bytes(m@),
            None => default_method(),
        })
        &&& self.up_status_codes@ == (match options.http_check_response_codes {
            Some(cs) => cs@,
            None => seq![200u16],
        })
        &&& self.proxy_version == options.http_proxy_protocol_version
    }

    /// Builds the probe when a URL is configured. The URL must name a
    /// numeric IPv4 host; the method defaults to `GET` and must be a token;
    /// the "up" codes default to `{200}` and must be valid status codes.
    pub fn from_options(options: &Options) -> (r: Result<Option<Self>, ConfigError>)
        ensures
            (match options.http_check_url {
                None => r matches Ok(None),
                Some(url) => {
                    let parsed = spec_parse_url(spec_str_bytes(url@));
                    let method_ok = match options.http_check_method {
                        Some(m) => valid_method(spec_str_bytes(m@)),
                        None => true,
                    };
                    let codes_ok = match options.http_check_response_codes {
                        Some(cs) => valid_codes(cs@),
                        None => true,
                    };
                    if parsed is None {
                        r matches Err(e) && e == ConfigError::InvalidHttpUrl
                    } else if !method_ok {
                        r matches Err(e) && e == ConfigError::InvalidHttpMethod
                    } else if !codes_ok {
                        r matches Err(e) && e == ConfigError::InvalidHttpStatusCode
                    } else {
                        r matches Ok(Some(c)) && parsed matches Some(u) && c.built_from(
                            u,
                            *options,
                        )
                    }
                },
            }),
    {
        match &options.http_check_url {
            None => Ok(None),
            Some(url) => {
                let target = match parse_http_url(url) {
                    None => {
                        return Err(ConfigError::InvalidHttpUrl);
                    },
                    Some(t) => t,
                };
                let method: Vec<u8> = match &options.http_check_method {
                    Some(m) => {
                        let mb = m.as_str().as_bytes_vec();
                        if !is_valid_method(&mb) {
                            return Err(ConfigError::InvalidHttpMethod);
                        }
                        mb
                    },
                    None => {
                        let mut g: Vec<u8> = Vec::new();
                        g.push(0x47);
                        g.push(0x45);
                        g.push(0x54);
                        proof {
                            assert(g@ =~= default_method());
                        }
                        g
                    },
                };
                let up_status_codes: Vec<u16> = match &options.http_check_response_codes {
                    Some(cs) => {
                        if !codes_valid(cs) {
                            return Err(ConfigError::InvalidHttpStatusCode);
                        }
                        copy_u16_vec(cs)
                    },
                    None => {
                        let mut v: Vec<u16> = Vec::new();
                        v.push(200);
                        proof {
                            assert(v@ =~= seq![200u16]);
                        }
                        v
                    },
                };
                Ok(Some(
                    Self {
                        endpoint: url.clone(),
                        target: target.addr,
                        host_header: target.host,
                        path: target.path,
                        method,
                        up_status_codes,
                        proxy_version: options.http_proxy_protocol_version,
                    },
                ))
            },
        }
    }

    /// The stable display name of this check, naming the configured URL.
    pub open spec fn spec_check_name(self) -> Seq<char> {
        "http endpoint check "@ + self.endpoint@
    }

    /// The stable display name of this check, naming the configured URL.
    pub fn check_name(&self) -> (s: String)
        ensures
            s@ == self.spec_check_name(),
    {
        let mut s = "http endpoint check ".to_owned();
        s.append(self.endpoint.as_str());
        s
    }

    /// The single HTTP/1.1 request the probe sends: the method, path, a
    /// `Host` header carrying the configured authority, and a
    /// `Connection: close` header, with an empty body.
    pub open spec fn spec_request_bytes(self) -> Seq<u8> {
        self.method@ + seq![0x20u8] + self.path@ + request_line_tail() + self.host_header@
            + headers_tail()
    }

    /// Builds the request bytes.
    pub fn request_bytes(&self) -> (r: Vec<u8>)
        ensures
            r@ == self.spec_request_bytes(),
    {
        let mut out: Vec<u8> = Vec::new();
        append_bytes(&mut out, &self.method);
        out.push(0x20);
        append_bytes(&mut out, &self.path);
        push_request_line_tail(&mut out);
        append_bytes(&mut out, &self.host_header);
        push_headers_tail(&mut out);
        proof {
            assert(out@ =~= self.spec_request_bytes());
        }
        out
    }

    /// Everything the probe writes on the wire, in order: the PROXY
    /// protocol preamble, when one is configured, directly followed by the
    /// HTTP request. The preamble is an exact prefix and precedes every
    /// HTTP byte.
    pub fn wire_bytes(&self) -> (r: Vec<u8>)
        ensures
            r@ == spec_probe_preamble(self.proxy_version) + self.spec_request_bytes(),
    {
        let mut out = encode_probe_preamble(&self.proxy_version);
        let mut req = self.request_bytes();
        out.append(&mut req);
        out
    }

    /// How the probe classifies a response code: a code in the configured
    /// "up" set is a success; any other is a plain failure whose reason
    /// carries the code received. No outcome of this probe is exclusive.
    pub open spec fn spec_classify(self, status: u16) -> CheckResultView {
        if self.up_status_codes@.contains(status) {
            CheckResultView { failure_reason: None, ignore_other_results: false }
        } else {
            CheckResultView {
                failure_reason: Some("received status "@ + dec_chars(status as nat)),
                ignore_other_results: false,
            }
        }
    }

    /// Classifies the response code the caller read back.
    pub fn classify_response(&self, status: u16) -> (r: StatusCheckResult)
        ensures
            r@ == self.spec_classify(status),
    {
        let mut i: usize = 0;
        let mut found = false;
        while i < self.up_status_codes.len()
            invariant
                0 <= i <= self.up_status_codes@.len(),
                found == exists|j: int|
                    0 <= j < i && self.up_status_codes@[j] == status,
            decreases self.up_status_codes@.len() - i,
        {
            if self.up_status_codes[i] == status {
                found = true;
            }
            i = i + 1;
        }
        if found {
            proof {
                assert(self.up_status_codes@.contains(status));
            }
            StatusCheckResult::new_success()
        } else {
            proof {
                assert(!self.up_status_codes@.contains(status));
            }
            let mut reason = "received status ".to_owned();
            let code = dec_string(status as u64);
            reason.append(code.as_str());
            StatusCheckResult::new_failure(reason)
        }
    }
}

/// The bytes between the path and the `Host` header value:
/// ` HTTP/1.1\r\nHost: `.
pub open spec fn request_line_tail() -> Seq<u8> {
    seq![0x20u8, 0x48u8, 0x54u8, 0x54u8, 0x50u8, 0x2fu8, 0x31u8, 0x2eu8, 0x31u8, 0x0du8, 0x0au8,
        0x48u8, 0x6fu8, 0x73u8, 0x74u8, 0x3au8, 0x20u8]
}

/// The bytes after the `Host` header value:
/// `\r\nConnection: close\r\n\r\n`.
pub open spec fn headers_tail() -> Seq<u8> {
    seq![0x0du8, 0x0au8, 0x43u8, 0x6fu8, 0x6eu8, 0x6eu8, 0x65u8, 0x63u8, 0x74u8, 0x69u8, 0x6fu8,
        0x6eu8, 0x3au8, 0x20u8, 0x63u8, 0x6cu8, 0x6fu8, 0x73u8, 0x65u8, 0x0du8, 0x0au8, 0x0du8,
        0x0au8]
}

/// Appends all of `src` to `out`.
fn append_bytes(out: &mut Vec<u8>, src: &Vec<u8>)
    ensures
        final(out)@ == old(out)@ + src@,
{
    let mut i: usize = 0;
    while i < src.len()
        invariant
            0 <= i <= src@.len(),
            out@ == old(out)@ + src@.subrange(0, i as int),
        decreases src@.len() - i,
    {
        out.push(src[i]);
        proof {
            assert(out@ =~= old(out)@ + src@.subrange(0, i + 1));
        }
        i = i + 1;
    }
    proof {
        assert(old(out)@ + src@.subrange(0, src@.len() as int) =~= old(out)@ + src@);
    }
}

/// Appends ` HTTP/1.1\r\nHost: `.
fn push_request_line_tail(out: &mut Vec<u8>)
    ensures
        final(out)@ == old(out)@ + request_line_tail(),
{
    out.push(0x20);
    out.push(0x48);
    out.push(0x54);
    out.push(0x54);
    out.push(0x50);
    out.push(0x2f);
    out.push(0x31);
    out.push(0x2e);
    out.push(0x31);
    out.push(0x0d);
    out.push(0x0a);
    out.push(0x48);
    out.push(0x6f);
    out.push(0x73);
    out.push(0x74);
    out.push(0x3a);
    out.push(0x20);
    proof {
        assert(out@ =~= old(out)@ + request_line_tail());
    }
}

/// Appends `\r\nConnection: close\r\n\r\n`.
fn push_headers_tail(out: &mut Vec<u8>)
    ensures
        final(out)@ == old(out)@ + headers_tail(),
{
    out.push(0x0d);
    out.push(0x0a);
    out.push(0x43);
    out.push(0x6f);
    out.push(0x6e);
    out.push(0x6e);
    out.push(0x65);
    out.push(0x63);
    out.push(0x74);
    out.push(0x69);
    out.push(0x6f);
    out.push(0x6e);
    out.push(0x3a);
    out.push(0x20);
    out.push(0x63);
    out.push(0x6c);
    out.push(0x6f);
    out.push(0x73);
    out.push(0x65);
    out.push(0x0d);
    out.push(0x0a);
    out.push(0x0d);
    out.push(0x0a);
    proof {
        assert(out@ =~= old(out)@ + headers_tail());
    }
}

/// Reads the status code out of an HTTP/1.1 status line: the three digits
/// after the first space.
pub open spec fn spec_parse_status_line(s: Seq<u8>) -> Option<u16> {
    let sp = find_byte_from(s, 0, 0x20);
    if sp == s.len() as int || s.len() < sp + 4 {
        None
    } else {
        let digits = s.subrange(sp + 1, sp + 4);
        if all_digits(digits) && 100 <= dec_value(digits) <= 999 {
            Some(dec_value(digits) as u16)
        } else {
            None
        }
    }
}

/// Reads the status code out of the response bytes the caller received.
pub fn parse_status_line(response: &Vec<u8>) -> (r: Option<u16>)
    ensures
        r == spec_parse_status_line(response@),
{
    let n = response.len();
    let sp = find_byte(response, 0, 0x20);
    if sp == n || n - sp < 4 {
        return None;
    }
    match checked_dec_value(response, sp + 1, sp + 4) {
        None => None,
        Some(val) => if 100 <= val && val <= 999 {
            Some(val as u16)
        } else {
            None
        },
    }
}

} // verus!
