use rusqlite::Connection;
use snif::frame::PacketData;
use snif::store::{
    create_session_table, create_table_statement, fetch_records, get_table_data, insert_record,
    insert_statement, is_session_table, is_valid_table_name, keep_session_names, list_dst_ips,
    list_names, list_protocol, list_src_ips,
    query_ip_stats, query_packet_per_second, query_protocol_histogram, select_statement,
    session_table_name, RecordFilter, StoreError,
};

fn row(timestamp: &str, source: &str, destination: &str, protocol: &str) -> PacketData {
    PacketData {
        timestamp: timestamp.to_string(),
        packet_type: "IPv4".to_string(),
        source: source.to_string(),
        destination: destination.to_string(),
        protocol: Some(protocol.to_string()),
        payload_base64: "AQI=".to_string(),
        payload_hex: "0102".to_string(),
        payload_raw: vec![1, 2],
        payload_string: "\u{1}\u{2}".to_string(),
    }
}

fn filled() -> (Connection, String) {
    let conn = Connection::open_in_memory().unwrap();
    let name = "packet_data_20240501100000".to_string();
    create_session_table(&conn, &name).unwrap();
    insert_record(&conn, &name, &row("2024-05-01T10:00:00.100+00:00", "A", "B", "TCP")).unwrap();
    insert_record(&conn, &name, &row("2024-05-01T10:00:00.900+00:00", "B", "A", "UDP")).unwrap();
    insert_record(&conn, &name, &row("2024-05-01T10:00:01.000+00:00", "A", "C", "TCP")).unwrap();
    (conn, name)
}

#[test]
fn table_names_are_validated() {
    assert!(is_valid_table_name("packet_data_20240501100000"));
    assert!(is_valid_table_name("_t1"));
    assert!(!is_valid_table_name(""));
    assert!(!is_valid_table_name("1abc"));
    assert!(!is_valid_table_name("t; DROP TABLE x"));
    assert!(!is_valid_table_name("t'--"));
}

#[test]
fn session_names() {
    assert_eq!(session_table_name("20240501100000").as_deref(), Some("packet_data_20240501100000"));
    assert_eq!(session_table_name(""), None);
    assert_eq!(session_table_name("2024-05-01"), None);
    assert!(is_session_table("packet_data_20240501100000"));
    assert!(!is_session_table("packet_data_"));
    assert!(!is_session_table("packet_data_x"));
    assert!(!is_session_table("sqlite_sequence"));
    let names = vec![
        "sqlite_sequence".to_string(),
        "packet_data_1".to_string(),
        "other".to_string(),
        "packet_data_2".to_string(),
    ];
    assert_eq!(keep_session_names(names), vec!["packet_data_1".to_string(), "packet_data_2".to_string()]);
}

#[test]
fn statements_name_the_table() {
    assert_eq!(
        create_table_statement("t").unwrap(),
        "CREATE TABLE IF NOT EXISTS t (id INTEGER PRIMARY KEY, timestamp TEXT NOT NULL, packet_type TEXT NOT NULL, source TEXT NOT NULL, destination TEXT NOT NULL, protocol TEXT, payload_base64 TEXT, payload_hex TEXT, payload_raw BLOB, payload_string TEXT)"
    );
    assert!(insert_statement("t").unwrap().starts_with("INSERT INTO t ("));
    assert!(select_statement("t").unwrap().ends_with(" FROM t ORDER BY id"));
    assert!(create_table_statement("a b").is_none());
    assert!(insert_statement("a b").is_none());
    assert!(select_statement("a b").is_none());
}

#[test]
fn rows_come_back_in_insertion_order() {
    let (conn, name) = filled();
    let rows = get_table_data(&conn, &name).unwrap();
    assert_eq!(rows.len(), 3);
    assert_eq!(rows[0].source, "A");
    assert_eq!(rows[1].source, "B");
    assert_eq!(rows[2].destination, "C");
    assert_eq!(rows[0].payload_raw, vec![1, 2]);
    assert_eq!(rows[0].protocol.as_deref(), Some("TCP"));
}

#[test]
fn creating_a_table_twice_keeps_its_rows() {
    let (conn, name) = filled();
    create_session_table(&conn, &name).unwrap();
    assert_eq!(get_table_data(&conn, &name).unwrap().len(), 3);
}

#[test]
fn invalid_or_missing_tables_are_errors() {
    let (conn, _) = filled();
    assert!(matches!(get_table_data(&conn, "x; DROP TABLE y"), Err(StoreError::InvalidTableName)));
    assert!(matches!(get_table_data(&conn, "packet_data_1"), Err(StoreError::Database(_))));
    assert!(matches!(create_session_table(&conn, ""), Err(StoreError::InvalidTableName)));
    assert!(matches!(
        insert_record(&conn, "bad name", &row("t", "A", "B", "TCP")),
        Err(StoreError::InvalidTableName)
    ));
    assert!(matches!(query_ip_stats(&conn, "1x"), Err(StoreError::InvalidTableName)));
}

#[test]
fn list_names_gives_session_tables_only() {
    let (conn, name) = filled();
    conn.execute("CREATE TABLE notes (x TEXT)", []).unwrap();
    assert_eq!(list_names(&conn).unwrap(), vec![name]);
}

#[test]
fn fetch_records_filters() {
    let (conn, name) = filled();
    let all = RecordFilter { protocol: None, source: None, destination: None };
    assert_eq!(fetch_records(&conn, &name, &all).unwrap().len(), 3);
    let from_a = RecordFilter { protocol: None, source: Some("A".to_string()), destination: None };
    assert_eq!(fetch_records(&conn, &name, &from_a).unwrap().len(), 2);
    let a_to_c = RecordFilter {
        protocol: Some("TCP".to_string()),
        source: Some("A".to_string()),
        destination: Some("C".to_string()),
    };
    let v = fetch_records(&conn, &name, &a_to_c).unwrap();
    assert_eq!(v.len(), 1);
    assert_eq!(v[0].timestamp, "2024-05-01T10:00:01.000+00:00");
    let udp_from_a = RecordFilter { protocol: Some("UDP".to_string()), source: Some("A".to_string()), destination: None };
    assert!(fetch_records(&conn, &name, &udp_from_a).unwrap().is_empty());
}

#[test]
fn queries_aggregate_the_table() {
    let (conn, name) = filled();
    let stats: Vec<(String, usize, usize)> = query_ip_stats(&conn, &name)
        .unwrap()
        .into_iter()
        .map(|(a, s)| (a, s.source_count, s.destination_count))
        .collect();
    assert_eq!(stats, vec![("A".to_string(), 2, 1), ("B".to_string(), 1, 1), ("C".to_string(), 0, 1)]);
    assert_eq!(
        query_packet_per_second(&conn, &name).unwrap(),
        vec![("10:00:00".to_string(), 2), ("10:00:01".to_string(), 1)]
    );
    assert_eq!(
        query_protocol_histogram(&conn, &name).unwrap(),
        vec![("TCP".to_string(), 2), ("UDP".to_string(), 1)]
    );
}

#[test]
fn distinct_values_of_a_table() {
    let (conn, name) = filled();
    assert_eq!(list_src_ips(&conn, &name).unwrap(), vec!["A".to_string(), "B".to_string()]);
    assert_eq!(
        list_dst_ips(&conn, &name).unwrap(),
        vec!["A".to_string(), "B".to_string(), "C".to_string()]
    );
    assert_eq!(list_protocol(&conn, &name).unwrap(), vec!["TCP".to_string(), "UDP".to_string()]);
    assert!(matches!(list_src_ips(&conn, "no such"), Err(StoreError::InvalidTableName)));
}
