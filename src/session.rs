use vstd::prelude::*;

use crate::encoding::hex_digits;
use crate::frame::{digit_text, frame_decodes, frame_record, handle_ethernet_packets, PacketData};
use crate::store::{
    all_digits, create_session_table, insert_record, is_session_table_name, session_prefix,
    session_table_name, valid_table_name, StoreError,
};

verus! {

/// A request made to the capture control.
pub enum ControlOp {
    /// Start capturing into the named table.
    Start(Seq<char>),
    /// Stop the running capture.
    Stop,
}

/// Active table after a start request: a running capture stays as it is.
pub open spec fn after_start(active: Option<Seq<char>>, table: Seq<char>) -> Option<Seq<char>> {
    if active is Some {
        active
    } else {
        Some(table)
    }
}

/// Whether the capture loop may write a row into `table`.
pub open spec fn may_write(active: Option<Seq<char>>, table: Seq<char>) -> bool {
    active == Some(table)
}

/// Active table after a sequence of requests.
pub open spec fn run(active: Option<Seq<char>>, ops: Seq<ControlOp>) -> Option<Seq<char>>
    decreases ops.len(),
{
    if ops.len() == 0 {
        active
    } else {
        let before = run(active, ops.drop_last());
        match ops.last() {
            ControlOp::Start(t) => after_start(before, t),
            ControlOp::Stop => None,
        }
    }
}

/// Which capture, if any, is running: at most one at a time.
pub struct CaptureControl {
    active: Option<String>,
}

impl View for CaptureControl {
    type V = Option<Seq<char>>;

    closed spec fn view(&self) -> Option<Seq<char>> {
        match self.active {
            Some(t) => Some(t@),
            None => None,
        }
    }
}

impl CaptureControl {
    /// No capture running.
    pub fn new() -> (r: Self)
        ensures
            r@ is None,
    {
        CaptureControl { active: None }
    }

    /// Table of the running capture.
    pub fn active_table(&self) -> (r: Option<String>)
        ensures
            r matches Some(t) ==> self@ == Some(t@),
            r is None <==> self@ is None,
    {
        match &self.active {
            Some(t) => Some(t.clone()),
            None => None,
        }
    }

    /// Asks to start capturing into `table`. Returns whether a capture loop must be
    /// started; while one runs, the request changes nothing.
    pub fn start(&mut self, table: String) -> (spawn: bool)
        ensures
            spawn == old(self)@ is None,
            final(self)@ == after_start(old(self)@, table@),
    {
        if self.active.is_some() {
            false
        } else {
            self.active = Some(table);
            true
        }
    }

    /// Asks the running capture to stop. Returns its table, whose loop must then be joined;
    /// `None` where nothing ran.
    pub fn stop(&mut self) -> (r: Option<String>)
        ensures
            final(self)@ is None,
            r is Some <==> old(self)@ is Some,
            r matches Some(t) ==> old(self)@ == Some(t@),
    {
        let mut taken: Option<String> = None;
        std::mem::swap(&mut taken, &mut self.active);
        taken
    }

    /// Whether the capture loop may still write into `table`.
    pub fn may_write(&self, table: &str) -> (r: bool)
        ensures
            r == may_write(self@, table@),
    {
        match &self.active {
            Some(t) => {
                let other = String::from_str(table);
                t.eq(&other)
            },
            None => false,
        }
    }
}

/// What became of one captured frame.
#[derive(Debug)]
pub enum FrameOutcome {
    /// This record, made from the frame, was appended.
    Stored(PacketData),
    /// It is not an IPv4 or IPv6 frame with a full header; nothing was written.
    Skipped,
    /// The store refused the record; capture goes on.
    InsertFailed(StoreError),
    /// The capture into this table was stopped; nothing was written.
    Stopped,
    /// The system clock gave no usable time; nothing was written.
    ClockUnavailable,
}

/// A UTC instant to the second, as calendar fields.
pub struct UtcTime {
    pub year: i32,
    pub month: u32,
    pub day: u32,
    pub hour: u32,
    pub minute: u32,
    pub second: u32,
}

/// Two decimal digits of `n`, with a leading zero below 10.
pub open spec fn two_digits(n: u32) -> Seq<char> {
    seq![hex_digits()[((n / 10) % 10) as int], hex_digits()[(n % 10) as int]]
}

/// Four decimal digits of `n`, with leading zeros below 1000.
pub open spec fn four_digits(n: u32) -> Seq<char> {
    seq![
        hex_digits()[((n / 1000) % 10) as int],
        hex_digits()[((n / 100) % 10) as int],
        hex_digits()[((n / 10) % 10) as int],
        hex_digits()[(n % 10) as int],
    ]
}

/// Compact form `YYYYMMDDhhmmss` of an instant.
pub open spec fn compact_stamp(t: UtcTime) -> Seq<char> {
    four_digits(t.year as u32) + two_digits(t.month) + two_digits(t.day) + two_digits(t.hour)
        + two_digits(t.minute) + two_digits(t.second)
}

/// The instant has a four-digit year, so its compact form names a session table.
pub open spec fn stamp_fits(t: UtcTime) -> bool {
    0 <= t.year <= 9999
}

/// Relies on std's `SystemTime::now` and `duration_since(UNIX_EPOCH)`: whole seconds and
/// the nanoseconds below one second since the epoch; `None` for a clock set before it.
#[verifier::external_body]
fn unix_time() -> (r: Option<(u64, u32)>)
    ensures
        r matches Some((_, nanos)) ==> nanos < 1_000_000_000,
{
    match std::time::SystemTime::now().duration_since(std::time::UNIX_EPOCH) {
        Ok(d) => Some((d.as_secs(), d.subsec_nanos())),
        Err(_) => None,
    }
}

/// Relies on chrono's `DateTime::from_timestamp` (`None` out of its range) and its `Datelike`
/// and `Timelike` accessors, documented as month 1 to 12, day 1 to 31, hour 0 to 23, minute
/// and second 0 to 59.
#[verifier::external_body]
fn utc_fields(secs: i64) -> (r: Option<UtcTime>)
    ensures
        r matches Some(t) ==> 1 <= t.month <= 12 && 1 <= t.day <= 31 && t.hour <= 23
            && t.minute <= 59 && t.second <= 59,
{
    match chrono::DateTime::from_timestamp(secs, 0) {
        Some(t) => Some(UtcTime {
            year: chrono::Datelike::year(&t),
            month: chrono::Datelike::month(&t),
            day: chrono::Datelike::day(&t),
            hour: chrono::Timelike::hour(&t),
            minute: chrono::Timelike::minute(&t),
            second: chrono::Timelike::second(&t),
        }),
        None => None,
    }
}

/// Relies on chrono's `DateTime::from_timestamp` (`None` out of its range) and
/// `DateTime::to_rfc3339`.
#[verifier::external_body]
fn rfc3339_at(secs: i64, nanos: u32) -> (r: Option<String>) {
    match chrono::DateTime::from_timestamp(secs, nanos) {
        Some(t) => Some(t.to_rfc3339()),
        None => None,
    }
}

/// Seconds and nanoseconds since the epoch, where the clock reads after it.
fn now_since_epoch() -> (r: Option<(i64, u32)>)
    ensures
        r matches Some((secs, nanos)) ==> secs >= 0 && nanos < 1_000_000_000,
{
    match unix_time() {
        Some((secs, nanos)) => {
            if secs <= i64::MAX as u64 {
                Some((secs as i64, nanos))
            } else {
                None
            }
        },
        None => None,
    }
}

proof fn lemma_digit_is_digit(d: int)
    requires
        0 <= d < 10,
    ensures
        '0' <= hex_digits()[d] && hex_digits()[d] <= '9',
{
    assert(hex_digits()[0] == '0' && hex_digits()[1] == '1' && hex_digits()[2] == '2');
    assert(hex_digits()[3] == '3' && hex_digits()[4] == '4' && hex_digits()[5] == '5');
    assert(hex_digits()[6] == '6' && hex_digits()[7] == '7' && hex_digits()[8] == '8');
    assert(hex_digits()[9] == '9');
}

fn append_two_digits(s: &mut String, n: u32)
    ensures
        final(s)@ == old(s)@ + two_digits(n),
{
    let ghost start = s@;
    s.append(digit_text(((n / 10) % 10) as u8));
    s.append(digit_text((n % 10) as u8));
    proof {
        assert(s@ =~= start + two_digits(n));
    }
}

fn append_four_digits(s: &mut String, n: u32)
    ensures
        final(s)@ == old(s)@ + four_digits(n),
{
    let ghost start = s@;
    s.append(digit_text(((n / 1000) % 10) as u8));
    s.append(digit_text(((n / 100) % 10) as u8));
    s.append(digit_text(((n / 10) % 10) as u8));
    s.append(digit_text((n % 10) as u8));
    proof {
        assert(s@ =~= start + four_digits(n));
    }
}

/// Compact form of an instant; `None` where its year does not have four digits.
pub fn compact_time(t: &UtcTime) -> (r: Option<String>)
    ensures
        r is Some <==> stamp_fits(*t),
        r matches Some(s) ==> s@ == compact_stamp(*t) && all_digits(s@),
{
    if t.year < 0 || t.year > 9999 {
        return None;
    }
    let mut s = String::new();
    append_four_digits(&mut s, t.year as u32);
    append_two_digits(&mut s, t.month);
    append_two_digits(&mut s, t.day);
    append_two_digits(&mut s, t.hour);
    append_two_digits(&mut s, t.minute);
    append_two_digits(&mut s, t.second);
    proof {
        assert(s@ =~= compact_stamp(*t));
        assert forall|i: int| 0 <= i < s@.len() implies '0' <= #[trigger] s@[i] && s@[i] <= '9' by {
            let v: u32 = if i < 4 {
                t.year as u32
            } else if i < 6 {
                t.month
            } else if i < 8 {
                t.day
            } else if i < 10 {
                t.hour
            } else if i < 12 {
                t.minute
            } else {
                t.second
            };
            assert(0 <= v / 1000 % 10 < 10 && 0 <= v / 100 % 10 < 10);
            assert(0 <= v / 10 % 10 < 10 && 0 <= v % 10 < 10);
            lemma_digit_is_digit((v / 1000 % 10) as int);
            lemma_digit_is_digit((v / 100 % 10) as int);
            lemma_digit_is_digit((v / 10 % 10) as int);
            lemma_digit_is_digit((v % 10) as int);
        }
    }
    Some(s)
}

/// Creates the table of a capture that starts at `t`, named `packet_data_YYYYMMDDhhmmss`.
pub fn create_session_table_at(conn: &rusqlite::Connection, t: &UtcTime) -> (r: Result<
    String,
    StoreError,
>)
    ensures
        r matches Err(StoreError::InvalidTableName) <==> !stamp_fits(*t),
        r matches Ok(n) ==> n@ == session_prefix() + compact_stamp(*t) && is_session_table_name(n@),
{
    match compact_time(t) {
        None => Err(StoreError::InvalidTableName),
        Some(stamp) => match session_table_name(stamp.as_str()) {
            None => Err(StoreError::InvalidTableName),
            Some(name) => match create_session_table(conn, name.as_str()) {
                Ok(()) => Ok(name),
                Err(e) => Err(e),
            },
        },
    }
}

/// Creates the table of a capture starting now, named after the current UTC time.
pub fn start_session_table(conn: &rusqlite::Connection) -> (r: Result<String, StoreError>)
    ensures
        r matches Ok(n) ==> is_session_table_name(n@),
{
    match now_since_epoch() {
        None => Err(StoreError::ClockUnavailable),
        Some((secs, _)) => match utc_fields(secs) {
            None => Err(StoreError::ClockUnavailable),
            Some(now) => create_session_table_at(conn, &now),
        },
    }
}

/// Starts a capture unless one runs: creates its table and makes it the active one. While a
/// capture runs, creates no table, changes nothing and returns `Ok(None)`.
pub fn begin_capture(control: &mut CaptureControl, conn: &rusqlite::Connection) -> (r: Result<
    Option<String>,
    StoreError,
>)
    ensures
        old(control)@ is Some ==> (r matches Ok(None)) && final(control)@ == old(control)@,
        old(control)@ is None && r is Err ==> final(control)@ is None,
        r matches Ok(Some(n)) ==> old(control)@ is None && final(control)@ == Some(n@)
            && is_session_table_name(n@),
        old(control)@ is None ==> !(r matches Ok(None)),
{
    if control.active.is_some() {
        return Ok(None);
    }
    match start_session_table(conn) {
        Ok(name) => {
            control.start(name.clone());
            Ok(Some(name))
        },
        Err(e) => Err(e),
    }
}

/// Handles one frame, stamped `timestamp`, read by the capture loop of `table`: while that
/// capture runs, appends the frame's record. A frame that does not decode, or a refused
/// insert, is reported and never ends the capture.
pub fn store_frame(
    control: &CaptureControl,
    conn: &rusqlite::Connection,
    table: &str,
    frame: &[u8],
    timestamp: &str,
) -> (r: FrameOutcome)
    ensures
        !may_write(control@, table@) ==> r is Stopped,
        may_write(control@, table@) && !frame_decodes(frame@) ==> r is Skipped,
        may_write(control@, table@) && frame_decodes(frame@) ==> (r is Stored || r is InsertFailed),
        may_write(control@, table@) && frame_decodes(frame@) ==> ((r matches FrameOutcome::InsertFailed(
            StoreError::InvalidTableName,
        )) <==> !valid_table_name(table@)),
        r matches FrameOutcome::Stored(d) ==> frame_record(d, frame@, timestamp@),
{
    if !control.may_write(table) {
        return FrameOutcome::Stopped;
    }
    match handle_ethernet_packets(frame, timestamp) {
        None => FrameOutcome::Skipped,
        Some(record) => match insert_record(conn, table, &record) {
            Ok(()) => FrameOutcome::Stored(record),
            Err(e) => FrameOutcome::InsertFailed(e),
        },
    }
}

/// `store_frame` with the current time as the frame's timestamp; `ClockUnavailable` where
/// the system clock gives none.
pub fn capture_frame(
    control: &CaptureControl,
    conn: &rusqlite::Connection,
    table: &str,
    frame: &[u8],
) -> (r: FrameOutcome)
    ensures
        !may_write(control@, table@) ==> r is Stopped,
        may_write(control@, table@) && !(r is ClockUnavailable) && !frame_decodes(frame@)
            ==> r is Skipped,
        may_write(control@, table@) && !(r is ClockUnavailable) && frame_decodes(frame@) ==> (
        r is Stored || r is InsertFailed),
        may_write(control@, table@) && !(r is ClockUnavailable) && frame_decodes(frame@) ==> ((
        r matches FrameOutcome::InsertFailed(StoreError::InvalidTableName))
            <==> !valid_table_name(table@)),
        r matches FrameOutcome::Stored(d) ==> exists|ts: Seq<char>| frame_record(d, frame@, ts),
{
    if !control.may_write(table) {
        return FrameOutcome::Stopped;
    }
    match now_since_epoch() {
        None => FrameOutcome::ClockUnavailable,
        Some((secs, nanos)) => match rfc3339_at(secs, nanos) {
            None => FrameOutcome::ClockUnavailable,
            Some(timestamp) => store_frame(control, conn, table, frame, timestamp.as_str()),
        },
    }
}

/// Starting twice without a stop in between leaves the first capture as the only one: the
/// second request starts no loop and changes nothing.
pub proof fn lemma_start_is_idempotent(active: Option<Seq<char>>, first: Seq<char>, second: Seq<char>)
    ensures
        after_start(active, first) is Some,
        after_start(after_start(active, first), second) == after_start(active, first),
{
}

/// Once a capture is stopped, its table is never written again, whatever requests follow,
/// as long as none starts a capture into that same table.
pub proof fn lemma_no_write_after_stop(active: Option<Seq<char>>, table: Seq<char>, ops: Seq<ControlOp>)
    requires
        forall|i: int| 0 <= i < ops.len() ==> ops[i] != ControlOp::Start(table),
    ensures
        !may_write(run(run(active, seq![ControlOp::Stop]), ops), table),
    decreases ops.len(),
{
    if ops.len() > 0 {
        lemma_no_write_after_stop(active, table, ops.drop_last());
    }
}

} // verus!
