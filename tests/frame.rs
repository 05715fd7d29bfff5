use snif::encoding::{base64_decode, hex_decode};
use snif::frame::{handle_ethernet_packets, handle_ipv4_packets, handle_ipv6_packets};

fn ethernet(ethertype: [u8; 2], body: &[u8]) -> Vec<u8> {
    let mut f = vec![0x11, 0x22, 0x33, 0x44, 0x55, 0x66, 0xaa, 0xbb, 0xcc, 0xdd, 0xee, 0xff];
    f.extend_from_slice(&ethertype);
    f.extend_from_slice(body);
    f
}

fn ipv4(protocol: u8, payload: &[u8], trailing: usize) -> Vec<u8> {
    let total = (20 + payload.len()) as u16;
    let mut p = vec![0x45, 0x00, (total >> 8) as u8, total as u8, 0, 0, 0, 0, 64, protocol, 0, 0];
    p.extend_from_slice(&[192, 168, 0, 1, 10, 0, 0, 2]);
    p.extend_from_slice(payload);
    p.extend(std::iter::repeat(0u8).take(trailing));
    p
}

fn ipv6(next: u8, payload: &[u8]) -> Vec<u8> {
    let len = payload.len() as u16;
    let mut p = vec![0x60, 0, 0, 0, (len >> 8) as u8, len as u8, next, 64];
    p.extend_from_slice(&[0xfe, 0x80, 0, 0, 0, 0, 0, 0, 0, 0, 0, 0, 0, 0, 0, 1]);
    p.extend_from_slice(&[0xff, 0x02, 0, 0, 0, 0, 0, 0, 0, 0, 0, 0, 0, 0, 0, 1]);
    p.extend_from_slice(payload);
    p
}

#[test]
fn ipv4_frame_gives_one_record() {
    let frame = ethernet([0x08, 0x00], &ipv4(6, b"abcd", 2));
    let d = handle_ethernet_packets(&frame, "2024-05-01T10:00:00.100+00:00").unwrap();
    assert_eq!(d.timestamp, "2024-05-01T10:00:00.100+00:00");
    assert_eq!(d.packet_type, "IPv4");
    assert_eq!(d.source, "192.168.0.1");
    assert_eq!(d.destination, "10.0.0.2");
    assert_eq!(d.protocol.as_deref(), Some("TCP"));
    assert_eq!(d.payload_raw, b"abcd".to_vec());
    assert_eq!(d.payload_hex, "61626364");
    assert_eq!(d.payload_base64, "YWJjZA==");
    assert_eq!(d.payload_string, "abcd");
}

#[test]
fn ipv6_frame_gives_one_record() {
    let frame = ethernet([0x86, 0xdd], &ipv6(17, &[1, 2, 3]));
    let d = handle_ethernet_packets(&frame, "t").unwrap();
    assert_eq!(d.packet_type, "IPv6");
    assert_eq!(d.source, "fe80::1");
    assert_eq!(d.destination, "ff02::1");
    assert_eq!(d.protocol.as_deref(), Some("UDP"));
    assert_eq!(d.payload_raw, vec![1, 2, 3]);
    assert_eq!(d.payload_hex, "010203");
    assert_eq!(d.payload_base64, "AQID");
}

#[test]
fn other_ethertypes_give_none() {
    let arp = ethernet([0x08, 0x06], &[0u8; 28]);
    assert!(handle_ethernet_packets(&arp, "t").is_none());
    let vlan = ethernet([0x81, 0x00], &ipv4(6, b"x", 0));
    assert!(handle_ethernet_packets(&vlan, "t").is_none());
}

#[test]
fn short_frames_give_none() {
    assert!(handle_ethernet_packets(&[], "t").is_none());
    assert!(handle_ethernet_packets(&[0u8; 13], "t").is_none());
    let frame = ethernet([0x08, 0x00], &ipv4(6, b"", 0)[..19]);
    assert!(handle_ethernet_packets(&frame, "t").is_none());
    let frame = ethernet([0x86, 0xdd], &ipv6(6, b"")[..39]);
    assert!(handle_ethernet_packets(&frame, "t").is_none());
}

#[test]
fn header_only_datagrams_have_empty_payload() {
    let d = handle_ipv4_packets(&ipv4(1, b"", 0), "t").unwrap();
    assert_eq!(d.protocol.as_deref(), Some("ICMP"));
    assert!(d.payload_raw.is_empty());
    assert_eq!(d.payload_hex, "");
    assert_eq!(d.payload_base64, "");
    let d = handle_ipv6_packets(&ipv6(59, b""), "t").unwrap();
    assert!(d.payload_raw.is_empty());
}

#[test]
fn ipv4_payload_follows_header_length_and_total_length() {
    let mut p = ipv4(17, b"zz", 3);
    // a 24-byte header: one word of options before the payload
    p[0] = 0x46;
    p[3] = 26;
    p.splice(20..20, [1u8, 1, 1, 1]);
    let d = handle_ipv4_packets(&p, "t").unwrap();
    assert_eq!(d.payload_raw, b"zz".to_vec());
}

#[test]
fn invalid_utf8_payload_is_shown_lossily() {
    let d = handle_ipv4_packets(&ipv4(6, &[0x61, 0xff, 0x62], 0), "t").unwrap();
    assert_eq!(d.payload_string, "a\u{fffd}b");
    assert_eq!(d.payload_hex, "61ff62");
}

#[test]
fn payload_encodings_round_trip() {
    let payloads: Vec<Vec<u8>> = vec![vec![], vec![0], vec![0xff, 0x00, 0x7f], (0u8..=255).collect()];
    for payload in payloads {
        let d = handle_ipv4_packets(&ipv4(6, &payload, 0), "t").unwrap();
        assert_eq!(hex_decode(&d.payload_hex), Some(payload.clone()));
        assert_eq!(base64_decode(&d.payload_base64), Some(payload.clone()));
        assert_eq!(d.payload_raw, payload);
    }
}

#[test]
fn hex_decoding_accepts_both_cases_and_rejects_bad_text() {
    assert_eq!(hex_decode("0aFf"), Some(vec![0x0a, 0xff]));
    assert_eq!(hex_decode(""), Some(vec![]));
    assert_eq!(hex_decode("abc"), None);
    assert_eq!(hex_decode("zz"), None);
    assert_eq!(base64_decode("YWJjZA=="), Some(b"abcd".to_vec()));
    assert_eq!(base64_decode("not base64!"), None);
}

#[test]
fn ipv4_addresses_are_dotted_decimal() {
    let mut p = ipv4(6, b"", 0);
    p[12..20].copy_from_slice(&[255, 10, 0, 100, 9, 99, 199, 250]);
    let d = handle_ipv4_packets(&p, "t").unwrap();
    assert_eq!(d.source, "255.10.0.100");
    assert_eq!(d.destination, "9.99.199.250");
}

#[test]
fn base64_decoding_accepts_canonical_text_only() {
    assert_eq!(base64_decode("YQ=="), Some(b"a".to_vec()));
    assert_eq!(base64_decode("YQ"), None);
    assert_eq!(base64_decode("YR=="), None);
    assert_eq!(base64_decode(""), Some(vec![]));
}
