use rusqlite::Connection;
use snif::session::{
    begin_capture, capture_frame, compact_time, create_session_table_at, start_session_table,
    store_frame, CaptureControl, FrameOutcome, UtcTime,
};
use snif::store::StoreError;
use snif::store::{get_table_data, is_session_table};

fn ipv4_frame() -> Vec<u8> {
    let mut f = vec![0u8; 12];
    f.extend_from_slice(&[0x08, 0x00]);
    f.extend_from_slice(&[0x45, 0, 0, 22, 0, 0, 0, 0, 64, 17, 0, 0, 1, 2, 3, 4, 5, 6, 7, 8, b'h', b'i']);
    f
}

#[test]
fn second_start_is_a_no_op() {
    let mut c = CaptureControl::new();
    assert!(c.start("packet_data_1".to_string()));
    assert!(!c.start("packet_data_2".to_string()));
    assert_eq!(c.active_table().as_deref(), Some("packet_data_1"));
    assert!(c.may_write("packet_data_1"));
    assert!(!c.may_write("packet_data_2"));
}

#[test]
fn stop_ends_writing() {
    let mut c = CaptureControl::new();
    assert_eq!(c.stop(), None);
    c.start("packet_data_1".to_string());
    assert_eq!(c.stop().as_deref(), Some("packet_data_1"));
    assert!(!c.may_write("packet_data_1"));
    assert_eq!(c.active_table(), None);
    assert!(c.start("packet_data_2".to_string()));
    assert!(!c.may_write("packet_data_1"));
}

#[test]
fn frames_are_stored_only_while_running() {
    let conn = Connection::open_in_memory().unwrap();
    let table = start_session_table(&conn).unwrap();
    assert!(is_session_table(&table));
    let mut c = CaptureControl::new();
    c.start(table.clone());
    assert!(matches!(capture_frame(&c, &conn, &table, &ipv4_frame()), FrameOutcome::Stored(_)));
    let mut arp = vec![0u8; 12];
    arp.extend_from_slice(&[0x08, 0x06]);
    arp.extend_from_slice(&[0u8; 28]);
    assert!(matches!(capture_frame(&c, &conn, &table, &arp), FrameOutcome::Skipped));
    c.stop();
    assert!(matches!(capture_frame(&c, &conn, &table, &ipv4_frame()), FrameOutcome::Stopped));
    let rows = get_table_data(&conn, &table).unwrap();
    assert_eq!(rows.len(), 1);
    assert_eq!(rows[0].source, "1.2.3.4");
    assert_eq!(rows[0].destination, "5.6.7.8");
    assert_eq!(rows[0].protocol.as_deref(), Some("UDP"));
    assert_eq!(rows[0].payload_string, "hi");
    assert!(rows[0].timestamp.contains('T'));
}

#[test]
fn failed_insert_is_reported_not_fatal() {
    let conn = Connection::open_in_memory().unwrap();
    let mut c = CaptureControl::new();
    c.start("packet_data_missing".to_string());
    assert!(matches!(
        capture_frame(&c, &conn, "packet_data_missing", &ipv4_frame()),
        FrameOutcome::InsertFailed(_)
    ));
}

fn at(year: i32) -> UtcTime {
    UtcTime { year, month: 5, day: 1, hour: 9, minute: 7, second: 3 }
}

#[test]
fn compact_time_is_zero_padded() {
    assert_eq!(compact_time(&at(2024)).as_deref(), Some("20240501090703"));
    assert_eq!(compact_time(&at(987)).as_deref(), Some("09870501090703"));
    assert_eq!(compact_time(&at(10000)), None);
    assert_eq!(compact_time(&at(-1)), None);
}

#[test]
fn session_table_is_named_after_its_start() {
    let conn = Connection::open_in_memory().unwrap();
    assert_eq!(create_session_table_at(&conn, &at(2024)).unwrap(), "packet_data_20240501090703");
    assert!(matches!(create_session_table_at(&conn, &at(12345)), Err(StoreError::InvalidTableName)));
    assert!(get_table_data(&conn, "packet_data_20240501090703").unwrap().is_empty());
}

#[test]
fn begin_capture_twice_makes_one_table() {
    let conn = Connection::open_in_memory().unwrap();
    let mut c = CaptureControl::new();
    let first = begin_capture(&mut c, &conn).unwrap().unwrap();
    assert!(begin_capture(&mut c, &conn).unwrap().is_none());
    assert_eq!(c.active_table(), Some(first.clone()));
    let tables: i64 = conn
        .query_row("SELECT COUNT(*) FROM sqlite_master WHERE type = 'table'", [], |r| r.get(0))
        .unwrap();
    assert_eq!(tables, 1);
}

#[test]
fn stored_outcome_carries_the_frame_record() {
    let conn = Connection::open_in_memory().unwrap();
    let mut c = CaptureControl::new();
    let table = begin_capture(&mut c, &conn).unwrap().unwrap();
    match store_frame(&c, &conn, &table, &ipv4_frame(), "2024-05-01T10:00:00Z") {
        FrameOutcome::Stored(d) => {
            assert_eq!(d.timestamp, "2024-05-01T10:00:00Z");
            assert_eq!(d.source, "1.2.3.4");
        }
        other => panic!("unexpected outcome {other:?}"),
    }
    let rows = get_table_data(&conn, &table).unwrap();
    assert_eq!(rows[0].timestamp, "2024-05-01T10:00:00Z");
}

#[test]
fn invalid_table_name_is_reported_per_frame() {
    let conn = Connection::open_in_memory().unwrap();
    let mut c = CaptureControl::new();
    c.start("bad name".to_string());
    assert!(matches!(
        capture_frame(&c, &conn, "bad name", &ipv4_frame()),
        FrameOutcome::InsertFailed(StoreError::InvalidTableName)
    ));
}
