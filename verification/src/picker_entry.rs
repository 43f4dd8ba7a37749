//! Saved-session entries of the tree-structured session picker, and the
//! text of their rows.
use vstd::prelude::*;
use vstd::string::*;
use crate::decisions::{decimal, format_decimal};
use crate::ids::SessionId;
use crate::lifecycle::SessionState;

verus! {

/// A saved session ready for display in the picker; the ids are kept as
/// text for the tree's lookups.
#[derive(Debug, Clone)]
pub struct SessionTreeEntry {
    pub session_id: SessionId,
    /// The session id as text.
    pub id_str: String,
    /// Human-readable title (from the first user message).
    pub title: String,
    /// When the session was last modified.
    pub updated_at: jiff::Timestamp,
    /// Whether the session is loaded in memory or archived.
    pub session_state: SessionState,
    /// The parent session, `None` for a root.
    pub parent_id: Option<SessionId>,
    /// The parent's id as text.
    pub parent_id_str: Option<String>,
}

impl SessionTreeEntry {
    /// The entry's ids are written out as text.
    pub open spec fn wf(&self) -> bool {
        &&& self.id_str@ == decimal(self.session_id as nat)
        &&& match self.parent_id {
            Some(p) => self.parent_id_str matches Some(t) && t@ == decimal(p as nat),
            None => self.parent_id_str is None,
        }
    }

    /// Creates an entry.
    pub fn new(
        session_id: SessionId,
        title: String,
        updated_at: jiff::Timestamp,
        session_state: SessionState,
        parent_id: Option<SessionId>,
    ) -> (e: SessionTreeEntry)
        ensures
            e.wf(),
            e.session_id == session_id,
            e.title == title,
            e.updated_at == updated_at,
            e.session_state == session_state,
            e.parent_id == parent_id,
    {
        let id_str = format_decimal(session_id);
        let parent_id_str = match parent_id {
            Some(p) => Some(format_decimal(p)),
            None => None,
        };
        SessionTreeEntry { session_id, id_str, title, updated_at, session_state, parent_id, parent_id_str }
    }

    /// The session id, as text.
    pub fn id(&self) -> (r: &str)
        requires
            self.wf(),
        ensures
            r@ == decimal(self.session_id as nat),
    {
        self.id_str.as_str()
    }

    /// The parent's id, as text.
    pub fn parent_id(&self) -> (r: Option<&str>)
        requires
            self.wf(),
        ensures
            match self.parent_id {
                Some(p) => r matches Some(t) && t@ == decimal(p as nat),
                None => r is None,
            },
    {
        match &self.parent_id_str {
            Some(t) => Some(t.as_str()),
            None => None,
        }
    }

    /// The label the picker filters on: the title.
    pub fn display_label(&self) -> (r: &str)
        ensures
            r@ == self.title@,
    {
        self.title.as_str()
    }

    /// Whether the row is drawn dimmed: archived sessions are.
    pub fn is_dimmed(&self) -> (b: bool)
        ensures
            b == (self.session_state == SessionState::Archived),
    {
        self.session_state == SessionState::Archived
    }

    /// The date shown at the right of the row: the last update in UTC, as
    /// `YYYY-MM-DD HH:MM`.
    pub fn row_date(&self) -> (r: String)
        ensures
            r@ == row_date_text(utc_fields(nanos_of(self.updated_at))),
    {
        let n = timestamp_nanos(&self.updated_at);
        let f = utc_civil_fields(n);
        format_row_date(f.0, f.1, f.2, f.3, f.4)
    }
}

/// The ranges jiff documents for a civil date-time's year, month, day,
/// hour and minute.
pub open spec fn civil_in_range(f: (i16, i8, i8, i8, i8)) -> bool {
    &&& -9999 <= f.0 <= 9999
    &&& 1 <= f.1 <= 12
    &&& 1 <= f.2 <= 31
    &&& 0 <= f.3 <= 23
    &&& 0 <= f.4 <= 59
}

/// The nanosecond counts from `Timestamp::MIN` to `Timestamp::MAX`: jiff
/// narrows the seconds by the largest time-zone offset (25:59:59) on each
/// side of the civil years -9999 to 9999.
pub open spec fn timestamp_nanos_in_range(n: i128) -> bool {
    -377_705_023_201_000_000_000 <= n <= 253_402_207_200_999_999_999
}

/// What `Timestamp::as_nanosecond` returns for `t`: nanoseconds since the
/// Unix epoch.
pub uninterp spec fn nanos_of(t: jiff::Timestamp) -> i128;

/// The proleptic Gregorian date (year, month, day) of day `days` after
/// 1970-01-01, counting in 400-year eras that start on 0000-03-01.
pub open spec fn civil_from_days(days: int) -> (int, int, int) {
    let z = days + 719468;
    let era = z / 146097;
    let doe = z - era * 146097;
    let yoe = (doe - doe / 1460 + doe / 36524 - doe / 146096) / 365;
    let doy = doe - (365 * yoe + yoe / 4 - yoe / 100);
    let mp = (5 * doy + 2) / 153;
    let d = doy - (153 * mp + 2) / 5 + 1;
    let m = if mp < 10 { mp + 3 } else { mp - 9 };
    let y = yoe + era * 400 + if m <= 2 { 1int } else { 0int };
    (y, m, d)
}

/// The UTC civil year, month, day, hour and minute of the instant `nanos`
/// nanoseconds after the Unix epoch (seconds and days rounded down).
pub open spec fn utc_fields(nanos: i128) -> (i16, i8, i8, i8, i8) {
    let secs = nanos as int / 1_000_000_000;
    let days = secs / 86400;
    let sod = secs % 86400;
    let (y, m, d) = civil_from_days(days);
    (y as i16, m as i8, d as i8, (sod / 3600) as i8, (sod % 3600 / 60) as i8)
}

/// Calls `Timestamp::as_nanosecond`. Claimed: the result is `nanos_of(*t)`,
/// and it lies between the counts of `Timestamp::MIN` and `Timestamp::MAX`.
#[verifier::external_body]
fn timestamp_nanos(t: &jiff::Timestamp) -> (n: i128)
    ensures
        n == nanos_of(*t),
        timestamp_nanos_in_range(n),
{
    t.as_nanosecond()
}

/// Builds the timestamp with `Timestamp::from_nanosecond` (which succeeds on
/// every count in range) and reads its UTC civil date-time with
/// `Timestamp::to_zoned` and `Zoned::datetime`. Claimed: the result is
/// `utc_fields(nanos)` (jiff's calendar is the proleptic Gregorian one),
/// within the ranges jiff documents for these fields.
#[verifier::external_body]
fn utc_civil_fields(nanos: i128) -> (f: (i16, i8, i8, i8, i8))
    requires
        timestamp_nanos_in_range(nanos),
    ensures
        f == utc_fields(nanos),
        civil_in_range(f),
{
    let t = jiff::Timestamp::from_nanosecond(nanos).unwrap();
    let dt = t.to_zoned(jiff::tz::TimeZone::UTC).datetime();
    (dt.year(), dt.month(), dt.day(), dt.hour(), dt.minute())
}

/// `k` zeros.
pub open spec fn zeros(k: int) -> Seq<char>
    decreases k,
{
    if k <= 0 {
        Seq::empty()
    } else {
        zeros(k - 1).push('0')
    }
}

/// `n` in decimal, padded with leading zeros to `width` characters.
pub open spec fn zero_padded(n: nat, width: int) -> Seq<char> {
    zeros(width - decimal(n).len()) + decimal(n)
}

/// `n` in decimal, `width` characters wide with the sign, zero-padded
/// after the sign (the `{:0width}` format).
pub open spec fn signed_padded(n: int, width: int) -> Seq<char> {
    if n < 0 {
        seq!['-'] + zero_padded((-n) as nat, width - 1)
    } else {
        zero_padded(n as nat, width)
    }
}

/// The row date for the fields `f`.
pub open spec fn row_date_text(f: (i16, i8, i8, i8, i8)) -> Seq<char> {
    signed_padded(f.0 as int, 4) + seq!['-'] + zero_padded(f.1 as nat, 2) + seq!['-'] + zero_padded(f.2 as nat, 2)
        + seq![' '] + zero_padded(f.3 as nat, 2) + seq![':'] + zero_padded(f.4 as nat, 2)
}

/// Appends `n` zero-padded to `width` characters.
fn push_padded(out: &mut String, n: usize, width: usize)
    ensures
        final(out)@ == old(out)@ + zero_padded(n as nat, width as int),
{
    let digits = format_decimal(n as u64);
    let len = digits.unicode_len();
    let mut k: usize = 0;
    proof {
        reveal_strlit("0");
    }
    while k + len < width
        invariant
            len == decimal(n as nat).len(),
            digits@ == decimal(n as nat),
            k + len <= width || k == 0,
            out@ == old(out)@ + zeros(k as int),
        decreases width - k,
    {
        proof {
            reveal_strlit("0");
        }
        out.append("0");
        assert(zeros(k + 1) == zeros(k as int).push('0'));
        k = k + 1;
    }
    assert(zeros(k as int) == zeros(width - len)) by {
        if k + len > width {
            assert(k == 0);
            assert(width - len < 0);
        }
    }
    out.append(digits.as_str());
}

/// Formats the row date `YYYY-MM-DD HH:MM` (the year zero-padded to four
/// characters with its sign).
pub fn format_row_date(year: i16, month: i8, day: i8, hour: i8, minute: i8) -> (r: String)
    requires
        civil_in_range((year, month, day, hour, minute)),
    ensures
        r@ == row_date_text((year, month, day, hour, minute)),
{
    let mut r = String::new();
    proof {
        reveal_strlit("");
        reveal_strlit("-");
        reveal_strlit(" ");
        reveal_strlit(":");
    }
    if year < 0 {
        r.append("-");
        let y: i16 = -year;
        push_padded(&mut r, y as usize, 3);
    } else {
        push_padded(&mut r, year as usize, 4);
    }
    r.append("-");
    push_padded(&mut r, month as usize, 2);
    r.append("-");
    push_padded(&mut r, day as usize, 2);
    r.append(" ");
    push_padded(&mut r, hour as usize, 2);
    r.append(":");
    push_padded(&mut r, minute as usize, 2);
    r
}

} // verus!
