//! PROXY protocol preamble encoding, versions 1 and 2.
//!
//! The preamble is written on a fresh connection before any HTTP bytes so
//! that a proxy-aware backend accepts the probe. Both encodings are pure
//! functions of the source and destination endpoints; the probe always
//! declares a fixed loopback source and destination, since the point of the
//! preamble is compatibility, not endpoint fidelity.

use vstd::prelude::*;

use crate::net_addr::SockAddr;
use crate::numfmt::{dec_digits, push_dec_digits};
use crate::options::ProxyProtocolVersion;

verus! {

/// The ASCII bytes of `PROXY TCP4 `, the start of every v1 line this
/// encoder produces.
pub open spec fn v1_prefix() -> Seq<u8> {
    seq![0x50u8, 0x52u8, 0x4fu8, 0x58u8, 0x59u8, 0x20u8, 0x54u8, 0x43u8, 0x50u8, 0x34u8, 0x20u8]
}

/// The dotted decimal form of the four address octets.
pub open spec fn ip_dec_bytes(a: SockAddr) -> Seq<u8> {
    dec_digits(a.ip[0] as nat) + seq![0x2eu8] + dec_digits(a.ip[1] as nat) + seq![0x2eu8]
        + dec_digits(a.ip[2] as nat) + seq![0x2eu8] + dec_digits(a.ip[3] as nat)
}

/// The v1 preamble: the ASCII line
/// `PROXY TCP4 <src-ip> <dst-ip> <src-port> <dst-port>\r\n`.
pub open spec fn spec_v1_preamble(src: SockAddr, dst: SockAddr) -> Seq<u8> {
    v1_prefix() + ip_dec_bytes(src) + seq![0x20u8] + ip_dec_bytes(dst) + seq![0x20u8]
        + dec_digits(src.port as nat) + seq![0x20u8] + dec_digits(dst.port as nat)
        + seq![0x0du8, 0x0au8]
}

/// The fixed 12-byte signature that opens every v2 preamble.
pub open spec fn v2_signature() -> Seq<u8> {
    seq![0x0du8, 0x0au8, 0x0du8, 0x0au8, 0x00u8, 0x0du8, 0x0au8, 0x51u8, 0x55u8, 0x49u8, 0x54u8,
        0x0au8]
}

/// A port as two big-endian bytes.
pub open spec fn port_be_bytes(p: u16) -> Seq<u8> {
    seq![(p >> 8) as u8, (p & 0xff) as u8]
}

/// The four address octets in order.
pub open spec fn ip_raw_bytes(a: SockAddr) -> Seq<u8> {
    seq![a.ip[0], a.ip[1], a.ip[2], a.ip[3]]
}

/// The v2 preamble: the signature, the version/command byte `0x21`
/// (version 2, PROXY command), the family/protocol byte `0x11` (TCP over
/// IPv4), the big-endian length `12` of the address trailer, and the
/// trailer `src-addr, dst-addr, src-port, dst-port`.
pub open spec fn spec_v2_preamble(src: SockAddr, dst: SockAddr) -> Seq<u8> {
    v2_signature() + seq![0x21u8, 0x11u8, 0x00u8, 0x0cu8] + ip_raw_bytes(src) + ip_raw_bytes(dst)
        + port_be_bytes(src.port) + port_be_bytes(dst.port)
}

/// Encodes the v1 preamble for the given endpoints.
pub fn encode_v1_preamble(src: &SockAddr, dst: &SockAddr) -> (r: Vec<u8>)
    ensures
        r@ == spec_v1_preamble(*src, *dst),
{
    let mut out: Vec<u8> = Vec::new();
    out.push(0x50);
    out.push(0x52);
    out.push(0x4f);
    out.push(0x58);
    out.push(0x59);
    out.push(0x20);
    out.push(0x54);
    out.push(0x43);
    out.push(0x50);
    out.push(0x34);
    out.push(0x20);
    assert(out@ =~= v1_prefix());
    push_ip_dec(&mut out, src);
    out.push(0x20);
    push_ip_dec(&mut out, dst);
    out.push(0x20);
    push_dec_digits(&mut out, src.port as u64);
    out.push(0x20);
    push_dec_digits(&mut out, dst.port as u64);
    out.push(0x0d);
    out.push(0x0a);
    assert(out@ =~= spec_v1_preamble(*src, *dst));
    out
}

/// Appends the dotted decimal form of the address octets.
fn push_ip_dec(out: &mut Vec<u8>, a: &SockAddr)
    ensures
        final(out)@ == old(out)@ + ip_dec_bytes(*a),
{
    push_dec_digits(out, a.ip[0] as u64);
    out.push(0x2e);
    push_dec_digits(out, a.ip[1] as u64);
    out.push(0x2e);
    push_dec_digits(out, a.ip[2] as u64);
    out.push(0x2e);
    push_dec_digits(out, a.ip[3] as u64);
    assert(out@ =~= old(out)@ + ip_dec_bytes(*a));
}

/// Encodes the v2 preamble for the given endpoints.
pub fn encode_v2_preamble(src: &SockAddr, dst: &SockAddr) -> (r: Vec<u8>)
    ensures
        r@ == spec_v2_preamble(*src, *dst),
{
    let mut out: Vec<u8> = Vec::new();
    out.push(0x0d);
    out.push(0x0a);
    out.push(0x0d);
    out.push(0x0a);
    out.push(0x00);
    out.push(0x0d);
    out.push(0x0a);
    out.push(0x51);
    out.push(0x55);
    out.push(0x49);
    out.push(0x54);
    out.push(0x0a);
    assert(out@ =~= v2_signature());
    out.push(0x21);
    out.push(0x11);
    out.push(0x00);
    out.push(0x0c);
    out.push(src.ip[0]);
    out.push(src.ip[1]);
    out.push(src.ip[2]);
    out.push(src.ip[3]);
    out.push(dst.ip[0]);
    out.push(dst.ip[1]);
    out.push(dst.ip[2]);
    out.push(dst.ip[3]);
    out.push((src.port >> 8) as u8);
    out.push((src.port & 0xff) as u8);
    out.push((dst.port >> 8) as u8);
    out.push((dst.port & 0xff) as u8);
    assert(out@ =~= spec_v2_preamble(*src, *dst));
    out
}

/// The fixed endpoint the probe declares in its preambles: `127.0.0.1:0`.
pub fn loopback_endpoint() -> (a: SockAddr)
    ensures
        a == spec_loopback_endpoint(),
{
    let a = SockAddr { ip: [127, 0, 0, 1], port: 0 };
    proof {
        assert(a.ip =~= spec_loopback_endpoint().ip);
        assert(a == spec_loopback_endpoint());
    }
    a
}

/// The fixed endpoint the probe declares in its preambles: `127.0.0.1:0`.
pub open spec fn spec_loopback_endpoint() -> SockAddr {
    SockAddr { ip: [127u8, 0u8, 0u8, 1u8], port: 0u16 }
}

/// The preamble the HTTP probe writes before any HTTP bytes: loopback to
/// loopback, in the configured version; empty when no version is
/// configured.
pub open spec fn spec_probe_preamble(version: Option<ProxyProtocolVersion>) -> Seq<u8> {
    match version {
        None => Seq::empty(),
        Some(ProxyProtocolVersion::V1) => spec_v1_preamble(
            spec_loopback_endpoint(),
            spec_loopback_endpoint(),
        ),
        Some(ProxyProtocolVersion::V2) => spec_v2_preamble(
            spec_loopback_endpoint(),
            spec_loopback_endpoint(),
        ),
    }
}

/// Encodes the preamble the HTTP probe writes before any HTTP bytes.
pub fn encode_probe_preamble(version: &Option<ProxyProtocolVersion>) -> (r: Vec<u8>)
    ensures
        r@ == spec_probe_preamble(*version),
{
    match version {
        None => {
            let out: Vec<u8> = Vec::new();
            assert(out@ =~= spec_probe_preamble(None));
            out
        },
        Some(ProxyProtocolVersion::V1) => {
            let l = loopback_endpoint();
            encode_v1_preamble(&l, &l)
        },
        Some(ProxyProtocolVersion::V2) => {
            let l = loopback_endpoint();
            encode_v2_preamble(&l, &l)
        },
    }
}

} // verus!
