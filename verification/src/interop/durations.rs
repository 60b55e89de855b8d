//! Spans of time, read from and written as human-readable text by the
//! `humantime` crate (`2s`, `500ms`, `1h 30m`).
use vstd::prelude::*;

use crate::text;

verus! {

/// A span of time: whole seconds and the nanoseconds beyond them (the
/// value of a `std::time::Duration`).
#[derive(Clone, Copy, Debug, PartialEq, Eq, Structural)]
pub struct Span {
    pub secs: u64,
    pub nanos: u32,
}

impl Span {
    /// The nanoseconds beyond the seconds are below one second.
    pub open spec fn wf(self) -> bool {
        self.nanos < 1_000_000_000
    }

    /// The span in nanoseconds.
    pub open spec fn total_nanos(self) -> int {
        self.secs * 1_000_000_000 + self.nanos
    }

    /// A span of whole seconds.
    pub fn from_secs(secs: u64) -> (d: Span)
        ensures
            d.secs == secs,
            d.nanos == 0,
            d.wf(),
    {
        Span { secs, nanos: 0 }
    }

    /// A span of milliseconds.
    pub fn from_millis(millis: u64) -> (d: Span)
        ensures
            d.total_nanos() == millis * 1_000_000,
            d.wf(),
    {
        Span { secs: millis / 1000, nanos: ((millis % 1000) * 1_000_000) as u32 }
    }
}

/// Whether `a` is shorter than `b` (as `Duration`'s order compares them).
pub open spec fn shorter(a: Span, b: Span) -> bool {
    a.secs < b.secs || (a.secs == b.secs && a.nanos < b.nanos)
}

/// Whether `a` is shorter than `b`.
pub fn is_shorter(a: Span, b: Span) -> (r: bool)
    ensures
        r == shorter(a, b),
{
    a.secs < b.secs || (a.secs == b.secs && a.nanos < b.nanos)
}

/// What `humantime::parse_duration` gives for a text: the span, or the
/// `Display` text of its error.
pub uninterp spec fn spec_parse_duration(s: Seq<char>) -> Result<Span, Seq<char>>;

/// A character of a unit word, as `humantime` reads unit words.
pub open spec fn is_unit_char(c: char) -> bool {
    ('a' <= c <= 'z') || ('A' <= c <= 'Z') || c == 'µ'
}

/// Nanoseconds per unit of a `humantime` unit word; zero for a word that is
/// no unit (such a word ends the reading with an error).
pub open spec fn unit_nanos(u: Seq<char>) -> nat {
    if u == "nanos"@ || u == "nsec"@ || u == "ns"@ {
        1
    } else if u == "usec"@ || u == "us"@ || u == "µs"@ {
        1000
    } else if u == "millis"@ || u == "msec"@ || u == "ms"@ {
        1_000_000
    } else if u == "seconds"@ || u == "second"@ || u == "secs"@ || u == "sec"@ || u == "s"@ {
        1_000_000_000
    } else if u == "minutes"@ || u == "minute"@ || u == "min"@ || u == "mins"@ || u == "m"@ {
        60_000_000_000
    } else if u == "hours"@ || u == "hour"@ || u == "hr"@ || u == "hrs"@ || u == "h"@ {
        3_600_000_000_000
    } else if u == "days"@ || u == "day"@ || u == "d"@ {
        86_400_000_000_000
    } else if u == "weeks"@ || u == "week"@ || u == "wk"@ || u == "wks"@ || u == "w"@ {
        604_800_000_000_000
    } else if u == "months"@ || u == "month"@ || u == "M"@ {
        2_630_016_000_000_000
    } else if u == "years"@ || u == "year"@ || u == "yr"@ || u == "yrs"@ || u == "y"@ {
        31_557_600_000_000_000
    } else {
        0
    }
}

/// At most how many nanoseconds one span adds: its integer part times the
/// unit, and less than one more unit for a fractional part.
pub open spec fn segment_bound(value: nat, frac: bool, unit: Seq<char>) -> nat {
    value * unit_nanos(unit) + if frac {
        unit_nanos(unit)
    } else {
        0
    }
}

/// What a left-to-right reading of `s[..n]` has gathered: the bound of the
/// spans already closed, the integer part of the open number, whether it
/// has a fractional part, whether a unit word is being read, and where.
pub open spec fn scan(s: Seq<char>, n: int) -> (nat, nat, bool, bool, int)
    decreases n,
{
    if n <= 0 {
        (0, 0, false, false, 0)
    } else {
        scan_step(s, scan(s, n - 1), n - 1)
    }
}

/// One character `s[i]` of the reading.
pub open spec fn scan_step(s: Seq<char>, st: (nat, nat, bool, bool, int), i: int) -> (
    nat,
    nat,
    bool,
    bool,
    int,
) {
    let (total, value, frac, in_unit, start) = st;
    let c = s[i];
    if is_unit_char(c) {
        if in_unit {
            st
        } else {
            (total, value, frac, true, i)
        }
    } else {
        let total2 = if in_unit {
            total + segment_bound(value, frac, s.subrange(start, i))
        } else {
            total
        };
        let value2 = if in_unit {
            0
        } else {
            value
        };
        let frac2 = if in_unit {
            false
        } else {
            frac
        };
        if '0' <= c <= '9' {
            (
                total2,
                if frac2 {
                    value2
                } else {
                    value2 * 10 + ((c as int - '0' as int) as nat)
                },
                frac2,
                false,
                start,
            )
        } else if c == '.' {
            (total2, value2, true, false, start)
        } else {
            (total2, value2, frac2, false, start)
        }
    }
}

/// At most how many nanoseconds `humantime` adds up while reading `s`: the
/// sum of the bounds of its spans, each a number, an optional fraction and
/// the unit word after it.
pub open spec fn duration_bound(s: Seq<char>) -> nat {
    let (total, value, frac, in_unit, start) = scan(s, s.len() as int);
    if in_unit {
        total + segment_bound(value, frac, s.subrange(start, s.len() as int))
    } else {
        total
    }
}

/// `u64::MAX + 1` seconds, in nanoseconds: the first total a `Duration`
/// cannot hold.
pub open spec fn duration_nanos_limit() -> nat {
    18_446_744_073_709_551_616_000_000_000
}

const NANOS_LIMIT: u128 = 18_446_744_073_709_551_616_000_000_000;

/// `x`, or the limit when `x` reaches it.
pub open spec fn capped(x: nat) -> nat {
    if x < duration_nanos_limit() {
        x
    } else {
        duration_nanos_limit()
    }
}

proof fn lemma_capped_add(a: nat, b: nat)
    ensures
        capped(a + b) == capped(capped(a) + capped(b)),
{
}

proof fn lemma_capped_digit(v: nat, d: nat)
    requires
        d < 10,
    ensures
        capped(v * 10 + d) == capped(capped(v) * 10 + d),
{
}

/// `unit_nanos` of a unit word.
fn unit_nanos_of(u: &str) -> (m: u128)
    ensures
        m == unit_nanos(u@),
        m <= 31_557_600_000_000_000,
{
    if text::same_text(u, "nanos") || text::same_text(u, "nsec") || text::same_text(u, "ns") {
        1
    } else if text::same_text(u, "usec") || text::same_text(u, "us") || text::same_text(u, "µs") {
        1000
    } else if text::same_text(u, "millis") || text::same_text(u, "msec") || text::same_text(u, "ms") {
        1_000_000
    } else if text::same_text(u, "seconds") || text::same_text(u, "second") || text::same_text(u, "secs")
        || text::same_text(u, "sec") || text::same_text(u, "s") {
        1_000_000_000
    } else if text::same_text(u, "minutes") || text::same_text(u, "minute") || text::same_text(u, "min")
        || text::same_text(u, "mins") || text::same_text(u, "m") {
        60_000_000_000
    } else if text::same_text(u, "hours") || text::same_text(u, "hour") || text::same_text(u, "hr")
        || text::same_text(u, "hrs") || text::same_text(u, "h") {
        3_600_000_000_000
    } else if text::same_text(u, "days") || text::same_text(u, "day") || text::same_text(u, "d") {
        86_400_000_000_000
    } else if text::same_text(u, "weeks") || text::same_text(u, "week") || text::same_text(u, "wk")
        || text::same_text(u, "wks") || text::same_text(u, "w") {
        604_800_000_000_000
    } else if text::same_text(u, "months") || text::same_text(u, "month") || text::same_text(u, "M") {
        2_630_016_000_000_000
    } else if text::same_text(u, "years") || text::same_text(u, "year") || text::same_text(u, "yr")
        || text::same_text(u, "yrs") || text::same_text(u, "y") {
        31_557_600_000_000_000
    } else {
        0
    }
}

/// `segment_bound`, capped at the limit.
fn capped_segment(value: u128, frac: bool, u: &str) -> (r: u128)
    requires
        value <= NANOS_LIMIT,
    ensures
        forall|v: nat| capped(v) == value ==> r == capped(segment_bound(v, frac, u@)),
{
    let m = unit_nanos_of(u);
    let f: u128 = if frac {
        m
    } else {
        0
    };
    if m == 0 {
        return 0;
    }
    let q = (NANOS_LIMIT - f) / m;
    if value > q {
        proof {
            let room = (NANOS_LIMIT - f) as int;
            assert(q == room / (m as int));
            assert(value * m > room) by (nonlinear_arith)
                requires
                    value > room / (m as int),
                    m > 0,
                    room >= 0,
            ;
            assert forall|v: nat| capped(v) == value implies NANOS_LIMIT == capped(segment_bound(v, frac, u@)) by {
                assert(v >= value);
                assert(v * m >= value * m) by (nonlinear_arith)
                    requires
                        v >= value,
                ;
            }
        }
        NANOS_LIMIT
    } else {
        proof {
            let room = (NANOS_LIMIT - f) as int;
            assert(q == room / (m as int));
            assert(value * m <= room) by (nonlinear_arith)
                requires
                    value <= room / (m as int),
                    m > 0,
                    room >= 0,
            ;
            assert forall|v: nat| capped(v) == value implies value * m + f == capped(segment_bound(v, frac, u@)) by {
                if v >= duration_nanos_limit() {
                    assert(value == NANOS_LIMIT);
                    assert(value * m >= value) by (nonlinear_arith)
                        requires
                            m > 0,
                    ;
                    assert(v * m >= value * m) by (nonlinear_arith)
                        requires
                            v >= value,
                    ;
                    assert(value * m + f == NANOS_LIMIT);
                }
            }
        }
        value * m + f
    }
}

/// Whether reading `s` with `humantime` cannot reach a total of `u64::MAX +
/// 1` seconds (see [`duration_bound`]).
pub fn duration_in_range(s: &str) -> (b: bool)
    ensures
        b == (duration_bound(s@) < duration_nanos_limit()),
{
    let n = s.unicode_len();
    let mut total: u128 = 0;
    let mut value: u128 = 0;
    let mut frac = false;
    let mut in_unit = false;
    let mut start: usize = 0;
    let mut i: usize = 0;
    while i < n
        invariant
            n == s@.len(),
            i <= n,
            start <= i,
            total <= NANOS_LIMIT,
            value <= NANOS_LIMIT,
            ({
                let st = scan(s@, i as int);
                &&& total == capped(st.0)
                &&& value == capped(st.1)
                &&& frac == st.2
                &&& in_unit == st.3
                &&& start == st.4
            }),
        decreases n - i,
    {
        let c = s.get_char(i);
        let ghost st = scan(s@, i as int);
        if ('a' <= c && c <= 'z') || ('A' <= c && c <= 'Z') || c == 'µ' {
            if !in_unit {
                in_unit = true;
                start = i;
            }
        } else {
            if in_unit {
                let seg = capped_segment(value, frac, s.substring_char(start, i));
                proof {
                    lemma_capped_add(st.0, segment_bound(st.1, st.2, s@.subrange(st.4, i as int)));
                }
                total = if total + seg < NANOS_LIMIT {
                    total + seg
                } else {
                    NANOS_LIMIT
                };
                value = 0;
                frac = false;
                in_unit = false;
            }
            if '0' <= c && c <= '9' {
                if !frac {
                    let d = (c as u32 - '0' as u32) as u128;
                    proof {
                        let v2: nat = if st.3 { 0 } else { st.1 };
                        lemma_capped_digit(v2, d as nat);
                        assert(d as nat == c as nat - '0' as nat);
                    }
                    value = if value * 10 + d < NANOS_LIMIT {
                        value * 10 + d
                    } else {
                        NANOS_LIMIT
                    };
                }
            } else if c == '.' {
                frac = true;
            }
        }
        i = i + 1;
    }
    if in_unit {
        let seg = capped_segment(value, frac, s.substring_char(start, n));
        let ghost st = scan(s@, n as int);
        proof {
            lemma_capped_add(st.0, segment_bound(st.1, st.2, s@.subrange(st.4, n as int)));
            assert(s@.len() == n);
        }
        total + seg < NANOS_LIMIT
    } else {
        total < NANOS_LIMIT
    }
}

/// `humantime::parse_duration`. The crate's source returns zero for the text
/// `0` before any other parsing, and its spans are `Duration`s. The call is
/// made only on texts whose [`duration_bound`] stays below `u64::MAX + 1`
/// seconds: the crate reads a number (digits, white space between them
/// skipped), an optional fraction after `.`, and a unit word (letters and
/// `µ`), and adds each span with checked sums that fail with an error; its
/// one panic is `Duration::new` carrying a whole second of nanoseconds onto
/// `u64::MAX` seconds. A span adds at most its number times the unit, and
/// less than one unit for its fraction (a sub-second unit at most what its
/// checked product in nanoseconds holds), an unknown unit word ends the
/// reading with an error, so below that bound no running total can reach
/// the carry that panics.
#[verifier::external_body]
pub(crate) fn parse_duration(s: &str) -> (r: Result<Span, String>)
    requires
        duration_bound(s@) < duration_nanos_limit(),
    ensures
        match r {
            Ok(d) => (spec_parse_duration(s@) == Ok::<Span, Seq<char>>(d) && d.wf()),
            Err(e) => (spec_parse_duration(s@) == Err::<Span, Seq<char>>(e@)),
        },
        (s@ == seq!['0'] ==> r == Ok::<Span, String>(Span { secs: 0, nanos: 0 })),
{
    match humantime::parse_duration(s) {
        Ok(d) => Ok(Span { secs: d.as_secs(), nanos: d.subsec_nanos() }),
        Err(e) => Err(e.to_string()),
    }
}

/// `humantime::format_duration`, rendered. The crate documents that the
/// text parses back to the same span with `parse_duration`.
#[verifier::external_body]
pub(crate) fn format_duration(d: Span) -> (text: String)
    requires
        d.wf(),
    ensures
        (spec_parse_duration(text@) == Ok::<Span, Seq<char>>(d)),
{
    humantime::format_duration(std::time::Duration::new(d.secs, d.nanos)).to_string()
}

} // verus!
