use snif::frame::PacketData;
use snif::stats::{ip_stats, packets_per_second, protocol_histogram, time_bucket};

fn row(timestamp: &str, source: &str, destination: &str, protocol: Option<&str>) -> PacketData {
    PacketData {
        timestamp: timestamp.to_string(),
        packet_type: "IPv4".to_string(),
        source: source.to_string(),
        destination: destination.to_string(),
        protocol: protocol.map(|p| p.to_string()),
        payload_base64: String::new(),
        payload_hex: String::new(),
        payload_raw: Vec::new(),
        payload_string: String::new(),
    }
}

fn counts(v: &[(String, snif::stats::IpStats)]) -> Vec<(String, usize, usize)> {
    v.iter().map(|(a, s)| (a.clone(), s.source_count, s.destination_count)).collect()
}

#[test]
fn ip_stats_counts_each_direction() {
    let rows = vec![
        row("t", "A", "B", Some("TCP")),
        row("t", "B", "A", Some("TCP")),
        row("t", "A", "C", Some("TCP")),
    ];
    assert_eq!(
        counts(&ip_stats(&rows)),
        vec![("A".to_string(), 2, 1), ("B".to_string(), 1, 1), ("C".to_string(), 0, 1)]
    );
}

#[test]
fn ip_stats_of_no_rows_is_empty() {
    assert!(ip_stats(&Vec::new()).is_empty());
}

#[test]
fn ip_stats_counts_self_addressed_rows_both_ways() {
    let rows = vec![row("t", "10.0.0.1", "10.0.0.1", None)];
    assert_eq!(counts(&ip_stats(&rows)), vec![("10.0.0.1".to_string(), 1, 1)]);
}

#[test]
fn packets_per_second_buckets_by_time_of_day() {
    let rows = vec![
        row("2024-05-01T10:00:00.100+00:00", "A", "B", None),
        row("2024-05-01T10:00:00.900+00:00", "A", "B", None),
        row("2024-05-01T10:00:01.000+00:00", "A", "B", None),
    ];
    assert_eq!(
        packets_per_second(&rows),
        vec![("10:00:00".to_string(), 2), ("10:00:01".to_string(), 1)]
    );
}

#[test]
fn packets_per_second_merges_days_and_sorts() {
    let rows = vec![
        row("2024-05-02T09:59:59.5Z", "A", "B", None),
        row("2024-05-01T10:00:00.1Z", "A", "B", None),
        row("2024-05-02T10:00:00.7Z", "A", "B", None),
    ];
    assert_eq!(
        packets_per_second(&rows),
        vec![("09:59:59".to_string(), 1), ("10:00:00".to_string(), 2)]
    );
}

#[test]
fn time_bucket_cases() {
    assert_eq!(time_bucket("2024-05-01T10:00:00.123456789+00:00"), "10:00:00");
    assert_eq!(time_bucket("2024-05-01T10:00:00+00:00"), "10:00:00");
    assert_eq!(time_bucket("2024-05-01T10:00:00-05:00"), "10:00:00");
    assert_eq!(time_bucket("2024-05-01T10:00:00Z"), "10:00:00");
    assert_eq!(time_bucket("10:00:00.5"), "10:00:00");
    assert_eq!(time_bucket("aTbTc"), "b");
    assert_eq!(time_bucket(""), "");
}

#[test]
fn protocol_histogram_counts_labels() {
    let rows = vec![
        row("t", "A", "B", Some("TCP")),
        row("t", "A", "B", Some("UDP")),
        row("t", "A", "B", Some("TCP")),
        row("t", "A", "B", None),
        row("t", "A", "B", Some("Unassigned")),
    ];
    assert_eq!(
        protocol_histogram(&rows),
        vec![
            ("TCP".to_string(), 2),
            ("UDP".to_string(), 1),
            ("Unassigned".to_string(), 1),
            ("Unknown Protocol".to_string(), 1),
        ]
    );
}

#[test]
fn packets_per_second_with_whole_second_timestamps() {
    let rows = vec![
        row("2024-05-01T10:00:01+00:00", "A", "B", None),
        row("2024-05-01T10:00:01.500+00:00", "A", "B", None),
        row("2024-05-02T10:00:00.1+00:00", "A", "B", None),
        row("2024-05-01T10:00:00.2+00:00", "A", "B", None),
    ];
    assert_eq!(
        packets_per_second(&rows),
        vec![("10:00:00".to_string(), 2), ("10:00:01".to_string(), 2)]
    );
}

#[test]
fn bucket_and_label_counts_add_up_to_rows() {
    let rows = vec![
        row("2024-05-01T10:00:01Z", "A", "B", Some("TCP")),
        row("2024-05-01T10:00:01.3Z", "A", "B", None),
        row("2024-05-01T11:00:00Z", "A", "B", Some("UDP")),
    ];
    assert_eq!(packets_per_second(&rows).iter().map(|(_, n)| n).sum::<usize>(), 3);
    assert_eq!(protocol_histogram(&rows).iter().map(|(_, n)| n).sum::<usize>(), 3);
}
