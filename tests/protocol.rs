use snif::frame::identify_application_layer_protocol;
use snif::protocol::{get_next_level_protocol, identify_tcp_application, identify_udp_application};

#[test]
fn well_known_protocol_numbers() {
    assert_eq!(get_next_level_protocol(6), "TCP");
    assert_eq!(get_next_level_protocol(17), "UDP");
    assert_eq!(get_next_level_protocol(1), "ICMP");
    assert_eq!(get_next_level_protocol(58), "ICMP for IPv6");
    assert_eq!(get_next_level_protocol(0), "IPv6 Hop-by-Hop Option");
}

#[test]
fn unassigned_range_and_edges() {
    for n in 146u8..=252 {
        assert_eq!(get_next_level_protocol(n), "Unassigned");
    }
    assert_eq!(get_next_level_protocol(145), "Network Service Header");
    assert_eq!(get_next_level_protocol(253), "Use for experimentation and testing");
    assert_eq!(get_next_level_protocol(254), "Use for experimentation and testing");
    assert_eq!(get_next_level_protocol(255), "Reserved");
}

#[test]
fn label_is_total_over_bytes() {
    for n in 0u8..=255 {
        assert!(!get_next_level_protocol(n).is_empty());
    }
}

#[test]
fn port_labels() {
    assert_eq!(identify_tcp_application(50000, 443), Some("HTTPS"));
    assert_eq!(identify_udp_application(50000, 53), Some("DNS"));
    assert_eq!(identify_tcp_application(50000, 65000), Some("Reserved/Unassigned"));
    assert_eq!(identify_udp_application(50000, 65000), Some("Reserved/Unassigned"));
    assert_eq!(identify_tcp_application(50000, 6665), Some("IRC"));
    assert_eq!(identify_tcp_application(50000, 6670), Some("Reserved/Unassigned"));
    assert_eq!(identify_tcp_application(0, 0), Some("Reserved"));
}

#[test]
fn only_destination_port_decides() {
    assert_eq!(identify_tcp_application(443, 80), Some("HTTP"));
    assert_eq!(identify_udp_application(53, 123), Some("NTP"));
}

#[test]
fn segment_ports_are_read_big_endian() {
    let mut tcp = vec![0u8; 20];
    tcp[0] = 0xc3;
    tcp[1] = 0x50;
    tcp[2] = 0x01;
    tcp[3] = 0xbb;
    assert_eq!(identify_application_layer_protocol(&tcp, 6), Some("HTTPS"));
    assert_eq!(identify_application_layer_protocol(&tcp[..19], 6), None);
    let udp = [0xc3u8, 0x50, 0x00, 0x35, 0, 8, 0, 0];
    assert_eq!(identify_application_layer_protocol(&udp, 17), Some("DNS"));
    assert_eq!(identify_application_layer_protocol(&udp[..7], 17), None);
    assert_eq!(identify_application_layer_protocol(&tcp, 1), None);
}

#[test]
fn protocol_labels_are_never_empty() {
    assert!((0u8..=255).all(|n| !get_next_level_protocol(n).is_empty()));
}
