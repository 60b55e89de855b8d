//! Points in time, taken from and rendered by the `chrono` crate.
use vstd::prelude::*;

verus! {

/// A point in UTC time: whole seconds since the Unix epoch and the
/// nanoseconds within that second.
#[derive(Clone, Copy, Debug, PartialEq, Eq, Structural)]
pub struct Timestamp {
    pub secs: i64,
    pub nanos: u32,
}

/// Seconds bound that covers every date `chrono` can represent.
pub open spec fn secs_bound() -> int {
    0x800_0000_0000
}

impl Timestamp {
    /// Within the range of `chrono` dates, with a sub-second part below one second.
    pub open spec fn wf(self) -> bool {
        -secs_bound() < self.secs < secs_bound() && self.nanos < 1_000_000_000
    }

    /// Nanoseconds since the epoch.
    pub open spec fn total_nanos(self) -> int {
        self.secs * 1_000_000_000 + self.nanos
    }

    /// The instant `secs` seconds after the epoch.
    pub fn from_secs(secs: i64) -> (t: Timestamp)
        ensures
            t.secs == secs,
            t.nanos == 0,
    {
        Timestamp { secs, nanos: 0 }
    }
}

/// Whether `a` is strictly earlier than `b`.
pub open spec fn earlier(a: Timestamp, b: Timestamp) -> bool {
    a.secs < b.secs || (a.secs == b.secs && a.nanos < b.nanos)
}

/// Whether `a` is strictly earlier than `b`.
pub fn is_earlier(a: Timestamp, b: Timestamp) -> (r: bool)
    ensures
        r == earlier(a, b),
{
    a.secs < b.secs || (a.secs == b.secs && a.nanos < b.nanos)
}

/// Division truncating toward zero, as `chrono`'s whole-unit durations round.
pub open spec fn div_toward_zero(a: int, b: int) -> int
    recommends
        b > 0,
{
    if a >= 0 {
        a / b
    } else {
        -((-a) / b)
    }
}

/// Whole seconds from `start` to `end`, truncated toward zero.
pub open spec fn elapsed_secs(start: Timestamp, end: Timestamp) -> int {
    div_toward_zero(end.total_nanos() - start.total_nanos(), 1_000_000_000)
}

/// Whole milliseconds from `start` to `end`, truncated toward zero.
pub open spec fn elapsed_millis(start: Timestamp, end: Timestamp) -> int {
    div_toward_zero(end.total_nanos() - start.total_nanos(), 1_000_000)
}

fn trunc_div(a: i128, b: i128) -> (q: i128)
    requires
        b > 0,
        a > i128::MIN,
    ensures
        q == div_toward_zero(a as int, b as int),
{
    if a >= 0 {
        a / b
    } else {
        -((-a) / b)
    }
}

/// Whole seconds between two instants, as `chrono`'s `num_seconds` of their difference.
pub fn seconds_between(start: Timestamp, end: Timestamp) -> (r: i64)
    requires
        start.wf(),
        end.wf(),
    ensures
        r == elapsed_secs(start, end),
{
    let a = start.secs as i128 * 1_000_000_000 + start.nanos as i128;
    let b = end.secs as i128 * 1_000_000_000 + end.nanos as i128;
    let q = trunc_div(b - a, 1_000_000_000);
    assert(-0x1000_0000_0000 <= q <= 0x1000_0000_0000) by {
        assert(-0x1000_0000_0000 * 1_000_000_000 <= b - a <= 0x1000_0000_0000 * 1_000_000_000);
    }
    q as i64
}

/// Whole milliseconds between two instants, as `chrono`'s `num_milliseconds`.
pub fn millis_between(start: Timestamp, end: Timestamp) -> (r: i64)
    requires
        start.wf(),
        end.wf(),
    ensures
        r == elapsed_millis(start, end),
{
    let a = start.secs as i128 * 1_000_000_000 + start.nanos as i128;
    let b = end.secs as i128 * 1_000_000_000 + end.nanos as i128;
    let q = trunc_div(b - a, 1_000_000);
    assert(-0x1000_0000_0000_000 <= q <= 0x1000_0000_0000_000) by {
        assert(-0x1000_0000_0000 * 1_000_000_000 <= b - a <= 0x1000_0000_0000 * 1_000_000_000);
    }
    q as i64
}

/// The current time from `chrono::Utc::now`. It depends on the clock, so
/// only its shape is claimed: a `chrono` date with a sub-second part below
/// one second (as `Utc::now` builds it from the system time).
#[verifier::external_body]
pub(crate) fn now() -> (t: Timestamp)
    ensures
        t.wf(),
{
    let d = chrono::Utc::now();
    Timestamp { secs: d.timestamp(), nanos: d.timestamp_subsec_nanos() }
}

/// What `chrono` renders for an instant with the format `%Y%m%d_%H%M%S`, or
/// `None` where `DateTime::from_timestamp` has no date for it.
pub uninterp spec fn spec_compact_stamp(secs: i64, nanos: u32) -> Option<Seq<char>>;

/// A character that `%Y%m%d_%H%M%S` can produce: a digit, the separator
/// `_`, or the sign that years outside 0..=9999 carry.
pub open spec fn stamp_char(c: char) -> bool {
    ('0' <= c <= '9') || c == '_' || c == '+' || c == '-'
}

/// `DateTime::<Utc>::from_timestamp` followed by `format("%Y%m%d_%H%M%S")`.
/// The format writes only zero-padded numbers (the year with a sign when it
/// lies outside 0..=9999) and the literal `_`.
#[verifier::external_body]
pub(crate) fn compact_stamp(t: Timestamp) -> (r: Option<String>)
    ensures
        match r {
            Some(s) => spec_compact_stamp(t.secs, t.nanos) == Some(s@) && forall|i: int|
                0 <= i < s@.len() ==> stamp_char(#[trigger] s@[i]),
            None => spec_compact_stamp(t.secs, t.nanos) is None,
        },
{
    match chrono::DateTime::from_timestamp(t.secs, t.nanos) {
        Some(d) => Some(d.format("%Y%m%d_%H%M%S").to_string()),
        None => None,
    }
}

} // verus!
