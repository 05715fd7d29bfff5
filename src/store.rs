use vstd::prelude::*;

use crate::frame::PacketData;
use crate::stats::{
    buckets, destinations, distinct_destinations, distinct_protocols, distinct_sources, ip_stats,
    is_distinct_of, is_ip_tally, is_tally, packets_per_second, protocol_histogram, protocol_keys,
    sources, IpStats,
};

verus! {

#[verifier::external_type_specification]
#[verifier::external_body]
pub struct ExConnection(rusqlite::Connection);

#[verifier::external_type_specification]
#[verifier::external_body]
pub struct ExSqlError(rusqlite::Error);

/// Why a store operation did not happen.
#[derive(Debug)]
pub enum StoreError {
    /// The table name is not a plain identifier; nothing was sent to the database.
    InvalidTableName,
    /// The database refused the statement.
    Database(rusqlite::Error),
    /// The system clock gave no usable time to name a session table; nothing was sent.
    ClockUnavailable,
}

/// Which rows a fetch keeps: each given field must match exactly.
pub struct RecordFilter {
    pub protocol: Option<String>,
    pub source: Option<String>,
    pub destination: Option<String>,
}

/// Prefix of every session table's name.
pub open spec fn session_prefix() -> Seq<char> {
    "packet_data_"@
}

pub open spec fn is_digit(c: char) -> bool {
    '0' <= c && c <= '9'
}

/// A character that may stand in a table name.
pub open spec fn is_name_char(c: char) -> bool {
    ('a' <= c && c <= 'z') || ('A' <= c && c <= 'Z') || is_digit(c) || c == '_'
}

/// A table name that can be put into a statement unquoted: ASCII letters, digits and
/// underscores, not starting with a digit.
pub open spec fn valid_table_name(s: Seq<char>) -> bool {
    &&& s.len() > 0
    &&& !is_digit(s[0])
    &&& forall|i: int| 0 <= i < s.len() ==> is_name_char(#[trigger] s[i])
}

/// A non-empty run of decimal digits.
pub open spec fn all_digits(s: Seq<char>) -> bool {
    s.len() > 0 && forall|i: int| 0 <= i < s.len() ==> is_digit(#[trigger] s[i])
}

/// Name of a session table: the prefix followed by the compact start time.
pub open spec fn is_session_table_name(s: Seq<char>) -> bool {
    s.len() > session_prefix().len() && s.subrange(0, session_prefix().len() as int)
        == session_prefix() && all_digits(s.subrange(session_prefix().len() as int, s.len() as int))
}

pub open spec fn create_sql(name: Seq<char>) -> Seq<char> {
    "CREATE TABLE IF NOT EXISTS "@ + name
        + " (id INTEGER PRIMARY KEY, timestamp TEXT NOT NULL, packet_type TEXT NOT NULL, source TEXT NOT NULL, destination TEXT NOT NULL, protocol TEXT, payload_base64 TEXT, payload_hex TEXT, payload_raw BLOB, payload_string TEXT)"@
}

pub open spec fn insert_sql(name: Seq<char>) -> Seq<char> {
    "INSERT INTO "@ + name
        + " (timestamp, packet_type, source, destination, protocol, payload_base64, payload_hex, payload_raw, payload_string) VALUES (?1, ?2, ?3, ?4, ?5, ?6, ?7, ?8, ?9)"@
}

pub open spec fn table_names_sql() -> Seq<char> {
    "SELECT name FROM sqlite_master WHERE type = 'table'"@
}

pub open spec fn select_sql(name: Seq<char>) -> Seq<char> {
    "SELECT id, timestamp, packet_type, source, destination, protocol, payload_base64, payload_hex, payload_raw, payload_string FROM "@
        + name + " ORDER BY id"@
}

/// A row passes the filter.
pub open spec fn passes(d: PacketData, f: RecordFilter) -> bool {
    &&& f.protocol matches Some(p) ==> (d.protocol matches Some(q) && q@ == p@)
    &&& f.source matches Some(s) ==> d.source@ == s@
    &&& f.destination matches Some(t) ==> d.destination@ == t@
}

/// The rows that pass the filter, in their order.
pub open spec fn kept(rows: Seq<PacketData>, f: RecordFilter) -> Seq<PacketData> {
    rows.filter(|d: PacketData| passes(d, f))
}

/// The names that are session table names, in their order.
pub open spec fn session_names(names: Seq<Seq<char>>) -> Seq<Seq<char>> {
    names.filter(|n: Seq<char>| is_session_table_name(n))
}

/// Relies on rusqlite's `Connection::execute` with no parameters.
#[verifier::external_body]
fn execute_plain(conn: &rusqlite::Connection, sql: &str) -> (r: Result<usize, rusqlite::Error>) {
    conn.execute(sql, [])
}

/// Relies on rusqlite's `Connection::execute`, binding the record's nine fields in order.
#[verifier::external_body]
fn execute_with_record(conn: &rusqlite::Connection, sql: &str, d: &PacketData) -> (r: Result<
    usize,
    rusqlite::Error,
>) {
    conn.execute(
        sql,
        (
            &d.timestamp, &d.packet_type, &d.source, &d.destination, &d.protocol,
            &d.payload_base64, &d.payload_hex, &d.payload_raw, &d.payload_string,
        ),
    )
}

/// Relies on rusqlite's `Statement::query_map`, reading columns 1 to 9 of each row into a
/// record.
#[verifier::external_body]
fn query_records(conn: &rusqlite::Connection, sql: &str) -> (r: Result<
    Vec<PacketData>,
    rusqlite::Error,
>) {
    let mut stmt = conn.prepare(sql)?;
    let rows = stmt.query_map([], |w| Ok(PacketData {
        timestamp: w.get(1)?, packet_type: w.get(2)?, source: w.get(3)?,
        destination: w.get(4)?, protocol: w.get(5)?, payload_base64: w.get(6)?,
        payload_hex: w.get(7)?, payload_raw: w.get(8)?, payload_string: w.get(9)?,
    }))?;
    rows.collect()
}

/// Relies on rusqlite's `Statement::query_map`, reading column 0 of each row as text.
#[verifier::external_body]
fn query_texts(conn: &rusqlite::Connection, sql: &str) -> (r: Result<
    Vec<String>,
    rusqlite::Error,
>) {
    let mut stmt = conn.prepare(sql)?;
    let rows = stmt.query_map([], |w| w.get(0))?;
    rows.collect()
}

/// Whether a name can stand in a statement as a table name.
pub fn is_valid_table_name(name: &str) -> (r: bool)
    ensures
        r == valid_table_name(name@),
{
    let n = name.unicode_len();
    if n == 0 {
        return false;
    }
    let first = name.get_char(0);
    if '0' <= first && first <= '9' {
        return false;
    }
    let mut i: usize = 0;
    while i < n
        invariant
            n == name@.len(),
            i <= n,
            forall|k: int| 0 <= k < i ==> is_name_char(#[trigger] name@[k]),
        decreases n - i,
    {
        let c = name.get_char(i);
        if !(('a' <= c && c <= 'z') || ('A' <= c && c <= 'Z') || ('0' <= c && c <= '9') || c
            == '_') {
            return false;
        }
        i = i + 1;
    }
    true
}

fn is_all_digits(s: &str) -> (r: bool)
    ensures
        r == all_digits(s@),
{
    let n = s.unicode_len();
    if n == 0 {
        return false;
    }
    let mut i: usize = 0;
    while i < n
        invariant
            n == s@.len(),
            i <= n,
            forall|k: int| 0 <= k < i ==> is_digit(#[trigger] s@[k]),
        decreases n - i,
    {
        let c = s.get_char(i);
        if !('0' <= c && c <= '9') {
            return false;
        }
        i = i + 1;
    }
    true
}

proof fn lemma_session_name_is_valid(s: Seq<char>)
    requires
        is_session_table_name(s),
    ensures
        valid_table_name(s),
{
    reveal_strlit("packet_data_");
    let p = session_prefix().len() as int;
    assert forall|i: int| 0 <= i < s.len() implies is_name_char(#[trigger] s[i]) by {
        if i < p {
            assert(s[i] == s.subrange(0, p)[i]);
        } else {
            assert(s[i] == s.subrange(p, s.len() as int)[i - p]);
        }
    }
    assert(s[0] == s.subrange(0, p)[0]);
}

/// Whether a name is that of a session table.
pub fn is_session_table(name: &str) -> (r: bool)
    ensures
        r == is_session_table_name(name@),
{
    proof {
        reveal_strlit("packet_data_");
    }
    let n = name.unicode_len();
    if n <= 12 {
        return false;
    }
    let head = String::from_str(name.substring_char(0, 12));
    let prefix = String::from_str("packet_data_");
    if !(head == prefix) {
        return false;
    }
    is_all_digits(name.substring_char(12, n))
}

/// Name of the session table of a capture that started at `stamp` (its compact start time,
/// `YYYYMMDDhhmmss`); `None` where the stamp is not a run of digits.
pub fn session_table_name(stamp: &str) -> (r: Option<String>)
    ensures
        r is Some <==> all_digits(stamp@),
        r matches Some(n) ==> n@ == session_prefix() + stamp@ && is_session_table_name(n@),
        r matches Some(n) ==> valid_table_name(n@),
{
    if !is_all_digits(stamp) {
        return None;
    }
    let mut name = String::from_str("packet_data_");
    name.append(stamp);
    proof {
        reveal_strlit("packet_data_");
        assert(name@.subrange(0, 12) =~= session_prefix());
        assert(name@.subrange(12, name@.len() as int) =~= stamp@);
        lemma_session_name_is_valid(name@);
    }
    Some(name)
}

/// Statement that creates a session table with its nine columns and key; `None` for an
/// invalid name.
pub fn create_table_statement(name: &str) -> (r: Option<String>)
    ensures
        r is Some <==> valid_table_name(name@),
        r matches Some(s) ==> s@ == create_sql(name@),
{
    if !is_valid_table_name(name) {
        return None;
    }
    let mut s = String::from_str("CREATE TABLE IF NOT EXISTS ");
    s.append(name);
    s.append(
        " (id INTEGER PRIMARY KEY, timestamp TEXT NOT NULL, packet_type TEXT NOT NULL, source TEXT NOT NULL, destination TEXT NOT NULL, protocol TEXT, payload_base64 TEXT, payload_hex TEXT, payload_raw BLOB, payload_string TEXT)",
    );
    Some(s)
}

/// Statement that appends one record to a table; `None` for an invalid name.
pub fn insert_statement(name: &str) -> (r: Option<String>)
    ensures
        r is Some <==> valid_table_name(name@),
        r matches Some(s) ==> s@ == insert_sql(name@),
{
    if !is_valid_table_name(name) {
        return None;
    }
    let mut s = String::from_str("INSERT INTO ");
    s.append(name);
    s.append(
        " (timestamp, packet_type, source, destination, protocol, payload_base64, payload_hex, payload_raw, payload_string) VALUES (?1, ?2, ?3, ?4, ?5, ?6, ?7, ?8, ?9)",
    );
    Some(s)
}

/// Statement that reads every row of a table in insertion order; `None` for an invalid name.
pub fn select_statement(name: &str) -> (r: Option<String>)
    ensures
        r is Some <==> valid_table_name(name@),
        r matches Some(s) ==> s@ == select_sql(name@),
{
    if !is_valid_table_name(name) {
        return None;
    }
    let mut s = String::from_str(
        "SELECT id, timestamp, packet_type, source, destination, protocol, payload_base64, payload_hex, payload_raw, payload_string FROM ",
    );
    s.append(name);
    s.append(" ORDER BY id");
    Some(s)
}

/// Creates a session table unless it exists.
pub fn create_session_table(conn: &rusqlite::Connection, name: &str) -> (r: Result<(), StoreError>)
    ensures
        r matches Err(StoreError::InvalidTableName) <==> !valid_table_name(name@),
{
    match create_table_statement(name) {
        None => Err(StoreError::InvalidTableName),
        Some(sql) => match execute_plain(conn, sql.as_str()) {
            Ok(_) => Ok(()),
            Err(e) => Err(StoreError::Database(e)),
        },
    }
}

/// Appends one record to a table.
pub fn insert_record(conn: &rusqlite::Connection, name: &str, d: &PacketData) -> (r: Result<
    (),
    StoreError,
>)
    ensures
        r matches Err(StoreError::InvalidTableName) <==> !valid_table_name(name@),
{
    match insert_statement(name) {
        None => Err(StoreError::InvalidTableName),
        Some(sql) => match execute_with_record(conn, sql.as_str(), d) {
            Ok(_) => Ok(()),
            Err(e) => Err(StoreError::Database(e)),
        },
    }
}

/// The session table names among `names`, in their order.
pub fn keep_session_names(names: Vec<String>) -> (r: Vec<String>)
    ensures
        r@.map_values(|s: String| s@) == session_names(names@.map_values(|s: String| s@)),
{
    let ghost all = names@.map_values(|s: String| s@);
    let mut names = names;
    let mut out: Vec<String> = Vec::new();
    let n = names.len();
    let mut i: usize = 0;
    while i < n
        invariant
            n == names@.len(),
            i <= n,
            all.len() == n,
            forall|k: int| i <= k < n ==> (#[trigger] names@[k])@ == all[k],
            out@.map_values(|s: String| s@) == session_names(all.take(i as int)),
        decreases n - i,
    {
        let mut name = String::new();
        std::mem::swap(&mut name, &mut names[i]);
        proof {
            reveal(Seq::filter);
            assert(all.take(i + 1).drop_last() =~= all.take(i as int));
        }
        if is_session_table(name.as_str()) {
            out.push(name);
            proof {
                assert(out@.map_values(|s: String| s@) =~= session_names(all.take(i as int)).push(
                    all[i as int],
                ));
            }
        }
        i = i + 1;
    }
    proof {
        assert(all.take(n as int) =~= all);
    }
    out
}

/// Statement that reads the names of all tables in the store.
pub fn table_names_statement() -> (r: String)
    ensures
        r@ == table_names_sql(),
{
    String::from_str("SELECT name FROM sqlite_master WHERE type = 'table'")
}

/// Names of the session tables in the store, in no particular order.
pub fn list_names(conn: &rusqlite::Connection) -> (r: Result<Vec<String>, StoreError>)
    ensures
        r matches Ok(v) ==> forall|i: int| 0 <= i < v@.len() ==> is_session_table_name(#[trigger] v@[i]@),
{
    let sql = table_names_statement();
    match query_texts(conn, sql.as_str()) {
        Ok(names) => {
            let v = keep_session_names(names);
            proof {
                assert forall|i: int| 0 <= i < v@.len() implies is_session_table_name(#[trigger] v@[i]@) by {
                    assert(v@.map_values(|s: String| s@)[i] == v@[i]@);
                    lemma_session_names_are_sessions(names@.map_values(|s: String| s@), i);
                }
            }
            Ok(v)
        },
        Err(e) => Err(StoreError::Database(e)),
    }
}

proof fn lemma_session_names_are_sessions(names: Seq<Seq<char>>, i: int)
    requires
        0 <= i < session_names(names).len(),
    ensures
        is_session_table_name(session_names(names)[i]),
    decreases names.len(),
{
    reveal(Seq::filter);
    if names.len() > 0 {
        let rest = session_names(names.drop_last());
        if i < rest.len() {
            lemma_session_names_are_sessions(names.drop_last(), i);
        }
    }
}

/// The rows that pass the filter, in their order.
pub fn filter_records(rows: Vec<PacketData>, f: &RecordFilter) -> (r: Vec<PacketData>)
    ensures
        r@ == kept(rows@, *f),
{
    let ghost all = rows@;
    let mut rows = rows;
    let mut out: Vec<PacketData> = Vec::new();
    let n = rows.len();
    let mut i: usize = 0;
    while i < n
        invariant
            n == rows@.len(),
            i <= n,
            all.len() == n,
            forall|k: int| i <= k < n ==> #[trigger] rows@[k] == all[k],
            out@ == kept(all.take(i as int), *f),
        decreases n - i,
    {
        let mut d = PacketData {
            timestamp: String::new(),
            packet_type: String::new(),
            source: String::new(),
            destination: String::new(),
            protocol: None,
            payload_base64: String::new(),
            payload_hex: String::new(),
            payload_raw: Vec::new(),
            payload_string: String::new(),
        };
        std::mem::swap(&mut d, &mut rows[i]);
        proof {
            reveal(Seq::filter);
            assert(all.take(i + 1).drop_last() =~= all.take(i as int));
        }
        if record_passes(&d, f) {
            out.push(d);
        }
        i = i + 1;
    }
    proof {
        assert(all.take(n as int) =~= all);
    }
    out
}

fn text_equal(a: &String, b: &String) -> (r: bool)
    ensures
        r == (a@ == b@),
{
    a.eq(b)
}

fn record_passes(d: &PacketData, f: &RecordFilter) -> (r: bool)
    ensures
        r == passes(*d, *f),
{
    let protocol_ok = match &f.protocol {
        None => true,
        Some(p) => match &d.protocol {
            Some(q) => text_equal(q, p),
            None => false,
        },
    };
    let source_ok = match &f.source {
        None => true,
        Some(s) => text_equal(&d.source, s),
    };
    let destination_ok = match &f.destination {
        None => true,
        Some(t) => text_equal(&d.destination, t),
    };
    protocol_ok && source_ok && destination_ok
}

/// Every row of a session table, in insertion order.
pub fn get_table_data(conn: &rusqlite::Connection, table: &str) -> (r: Result<
    Vec<PacketData>,
    StoreError,
>)
    ensures
        r matches Err(StoreError::InvalidTableName) <==> !valid_table_name(table@),
{
    match select_statement(table) {
        None => Err(StoreError::InvalidTableName),
        Some(sql) => match query_records(conn, sql.as_str()) {
            Ok(rows) => Ok(rows),
            Err(e) => Err(StoreError::Database(e)),
        },
    }
}

/// The rows of a session table that pass the filter, in insertion order.
pub fn fetch_records(conn: &rusqlite::Connection, table: &str, f: &RecordFilter) -> (r: Result<
    Vec<PacketData>,
    StoreError,
>)
    ensures
        r matches Err(StoreError::InvalidTableName) <==> !valid_table_name(table@),
        r matches Ok(v) ==> exists|rows: Seq<PacketData>| v@ == kept(rows, *f),
{
    match get_table_data(conn, table) {
        Ok(rows) => {
            let v = filter_records(rows, f);
            Ok(v)
        },
        Err(e) => Err(e),
    }
}

/// Per-address traffic of a session table (see `ip_stats`).
pub fn query_ip_stats(conn: &rusqlite::Connection, table: &str) -> (r: Result<
    Vec<(String, IpStats)>,
    StoreError,
>)
    ensures
        r matches Err(StoreError::InvalidTableName) <==> !valid_table_name(table@),
        r matches Ok(v) ==> exists|rows: Seq<PacketData>|
            is_ip_tally(v@, sources(rows), destinations(rows)),
{
    match get_table_data(conn, table) {
        Ok(rows) => Ok(ip_stats(&rows)),
        Err(e) => Err(e),
    }
}

/// Rows per second of a session table (see `packets_per_second`).
pub fn query_packet_per_second(conn: &rusqlite::Connection, table: &str) -> (r: Result<
    Vec<(String, usize)>,
    StoreError,
>)
    ensures
        r matches Err(StoreError::InvalidTableName) <==> !valid_table_name(table@),
        r matches Ok(v) ==> exists|rows: Seq<PacketData>| is_tally(v@, buckets(rows)),
{
    match get_table_data(conn, table) {
        Ok(rows) => Ok(packets_per_second(&rows)),
        Err(e) => Err(e),
    }
}

/// Rows per protocol label of a session table (see `protocol_histogram`).
pub fn query_protocol_histogram(conn: &rusqlite::Connection, table: &str) -> (r: Result<
    Vec<(String, usize)>,
    StoreError,
>)
    ensures
        r matches Err(StoreError::InvalidTableName) <==> !valid_table_name(table@),
        r matches Ok(v) ==> exists|rows: Seq<PacketData>| is_tally(v@, protocol_keys(rows)),
{
    match get_table_data(conn, table) {
        Ok(rows) => Ok(protocol_histogram(&rows)),
        Err(e) => Err(e),
    }
}

/// Distinct source addresses of a session table, ascending.
pub fn list_src_ips(conn: &rusqlite::Connection, table: &str) -> (r: Result<Vec<String>, StoreError>)
    ensures
        r matches Err(StoreError::InvalidTableName) <==> !valid_table_name(table@),
        r matches Ok(v) ==> exists|rows: Seq<PacketData>| is_distinct_of(v@, sources(rows)),
{
    match get_table_data(conn, table) {
        Ok(rows) => Ok(distinct_sources(&rows)),
        Err(e) => Err(e),
    }
}

/// Distinct destination addresses of a session table, ascending.
pub fn list_dst_ips(conn: &rusqlite::Connection, table: &str) -> (r: Result<Vec<String>, StoreError>)
    ensures
        r matches Err(StoreError::InvalidTableName) <==> !valid_table_name(table@),
        r matches Ok(v) ==> exists|rows: Seq<PacketData>| is_distinct_of(v@, destinations(rows)),
{
    match get_table_data(conn, table) {
        Ok(rows) => Ok(distinct_destinations(&rows)),
        Err(e) => Err(e),
    }
}

/// Distinct protocol labels of a session table, ascending.
pub fn list_protocol(conn: &rusqlite::Connection, table: &str) -> (r: Result<Vec<String>, StoreError>)
    ensures
        r matches Err(StoreError::InvalidTableName) <==> !valid_table_name(table@),
        r matches Ok(v) ==> exists|rows: Seq<PacketData>| is_distinct_of(v@, protocol_keys(rows)),
{
    match get_table_data(conn, table) {
        Ok(rows) => Ok(distinct_protocols(&rows)),
        Err(e) => Err(e),
    }
}

} // verus!
