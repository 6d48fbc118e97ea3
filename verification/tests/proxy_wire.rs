//! PROXY protocol preamble encodings, held against reference byte strings,
//! and their place on the wire before any HTTP byte.

use easycheck::http_check::HttpResponseCheck;
use easycheck::net_addr::SockAddr;
use easycheck::options::{Options, ProxyProtocolVersion};
use easycheck::proxy::{
    encode_probe_preamble, encode_v1_preamble, encode_v2_preamble, loopback_endpoint,
};

fn addr(ip: [u8; 4], port: u16) -> SockAddr {
    SockAddr { ip, port }
}

#[test]
fn v1_preamble_for_loopback_matches_reference() {
    let l = loopback_endpoint();
    let encoded = encode_v1_preamble(&l, &l);
    assert_eq!(encoded, b"PROXY TCP4 127.0.0.1 127.0.0.1 0 0\r\n".to_vec());
}

#[test]
fn v1_preamble_for_arbitrary_endpoints_matches_reference() {
    let src = addr([192, 168, 1, 10], 51234);
    let dst = addr([10, 0, 0, 255], 80);
    let encoded = encode_v1_preamble(&src, &dst);
    assert_eq!(
        encoded,
        b"PROXY TCP4 192.168.1.10 10.0.0.255 51234 80\r\n".to_vec()
    );
}

#[test]
fn v2_preamble_for_loopback_matches_reference() {
    let l = loopback_endpoint();
    let encoded = encode_v2_preamble(&l, &l);
    let mut expected: Vec<u8> = vec![
        0x0d, 0x0a, 0x0d, 0x0a, 0x00, 0x0d, 0x0a, 0x51, 0x55, 0x49, 0x54, 0x0a,
    ];
    expected.push(0x21);
    expected.push(0x11);
    expected.extend_from_slice(&[0x00, 0x0c]);
    expected.extend_from_slice(&[127, 0, 0, 1]);
    expected.extend_from_slice(&[127, 0, 0, 1]);
    expected.extend_from_slice(&[0x00, 0x00]);
    expected.extend_from_slice(&[0x00, 0x00]);
    assert_eq!(encoded, expected);
    assert_eq!(encoded.len(), 28);
}

#[test]
fn v2_preamble_encodes_ports_big_endian() {
    let src = addr([1, 2, 3, 4], 0x1234);
    let dst = addr([5, 6, 7, 8], 0xabcd);
    let encoded = encode_v2_preamble(&src, &dst);
    assert_eq!(&encoded[16..20], &[1, 2, 3, 4]);
    assert_eq!(&encoded[20..24], &[5, 6, 7, 8]);
    assert_eq!(&encoded[24..26], &[0x12, 0x34]);
    assert_eq!(&encoded[26..28], &[0xab, 0xcd]);
}

#[test]
fn probe_preamble_follows_the_configured_version() {
    let l = loopback_endpoint();
    assert_eq!(encode_probe_preamble(&None), Vec::<u8>::new());
    assert_eq!(
        encode_probe_preamble(&Some(ProxyProtocolVersion::V1)),
        encode_v1_preamble(&l, &l)
    );
    assert_eq!(
        encode_probe_preamble(&Some(ProxyProtocolVersion::V2)),
        encode_v2_preamble(&l, &l)
    );
}

#[test]
fn wire_bytes_carry_the_preamble_before_any_http_byte() {
    let options = Options {
        bind_host: String::from("127.0.0.1:8080"),
        revalidate_interval_seconds: 5,
        force_success_file_path: None,
        mtc_check_file_path: None,
        socket_check_addr: None,
        socket_check_read_initial_response: None,
        http_check_url: Some(String::from("http://127.0.0.1:8080/")),
        http_check_method: None,
        http_check_response_codes: None,
        http_proxy_protocol_version: Some(ProxyProtocolVersion::V1),
    };
    let check = HttpResponseCheck::from_options(&options).unwrap().unwrap();
    let wire = check.wire_bytes();
    let l = loopback_endpoint();
    let preamble = encode_v1_preamble(&l, &l);
    let request = check.request_bytes();
    assert_eq!(&wire[..preamble.len()], preamble.as_slice());
    assert_eq!(&wire[preamble.len()..], request.as_slice());
    let mut expected = preamble.clone();
    expected.extend_from_slice(&request);
    assert_eq!(wire, expected);
}
