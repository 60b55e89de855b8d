//! Reading numbers from text as `str::trim` and `str::parse` do: white
//! space trimmed, an optional sign, decimal digits, and a value that fits.
use vstd::prelude::*;

verus! {

/// Whether `c` is white space in Unicode's sense (as `str::trim` uses).
pub open spec fn is_white_space(c: char) -> bool {
    ||| ('\u{9}' <= c <= '\u{d}')
    ||| c == ' '
    ||| c == '\u{85}'
    ||| c == '\u{a0}'
    ||| c == '\u{1680}'
    ||| ('\u{2000}' <= c <= '\u{200a}')
    ||| c == '\u{2028}'
    ||| c == '\u{2029}'
    ||| c == '\u{202f}'
    ||| c == '\u{205f}'
    ||| c == '\u{3000}'
}

/// Whether `lo..hi` is `s` without its leading and trailing white space.
pub open spec fn trimmed(s: Seq<char>, lo: int, hi: int) -> bool {
    &&& 0 <= lo <= hi <= s.len()
    &&& forall|k: int| 0 <= k < lo ==> is_white_space(s[k])
    &&& forall|k: int| hi <= k < s.len() ==> is_white_space(s[k])
    &&& (lo < hi ==> !is_white_space(s[lo]) && !is_white_space(s[hi - 1]))
    &&& (lo == hi ==> lo == 0)
}

/// `s` without its leading and trailing white space.
pub open spec fn trim_view(s: Seq<char>) -> Seq<char> {
    let (lo, hi) = choose|lo: int, hi: int| trimmed(s, lo, hi);
    s.subrange(lo, hi)
}

proof fn lemma_trimmed_unique(s: Seq<char>, lo1: int, hi1: int, lo2: int, hi2: int)
    requires
        trimmed(s, lo1, hi1),
        trimmed(s, lo2, hi2),
    ensures
        lo1 == lo2,
        hi1 == hi2,
{
    if lo1 < hi1 {
        if lo2 < lo1 && lo2 < hi2 {
            assert(is_white_space(s[lo2]));
        }
        if lo1 < lo2 {
            assert(is_white_space(s[lo1]));
        }
        if hi2 < hi1 {
            assert(is_white_space(s[hi1 - 1]));
        }
        if hi1 < hi2 && lo2 < hi2 {
            assert(is_white_space(s[hi2 - 1]));
        }
        if lo2 == hi2 {
            assert(is_white_space(s[lo1]));
        }
    } else if lo2 < hi2 {
        assert(is_white_space(s[lo2]));
    }
}

/// Whether `c` is white space.
pub fn is_white(c: char) -> (b: bool)
    ensures
        b == is_white_space(c),
{
    ('\u{9}' <= c && c <= '\u{d}') || c == ' ' || c == '\u{85}' || c == '\u{a0}' || c
        == '\u{1680}' || ('\u{2000}' <= c && c <= '\u{200a}') || c == '\u{2028}' || c
        == '\u{2029}' || c == '\u{202f}' || c == '\u{205f}' || c == '\u{3000}'
}

/// `s` without its leading and trailing white space.
pub fn trim(s: &str) -> (r: String)
    ensures
        r@ == trim_view(s@),
{
    let n = s.unicode_len();
    let mut lo: usize = 0;
    while lo < n && is_white(s.get_char(lo))
        invariant
            n == s@.len(),
            lo <= n,
            forall|k: int| 0 <= k < lo ==> is_white_space(s@[k]),
        decreases n - lo,
    {
        lo = lo + 1;
    }
    let mut hi: usize = n;
    while hi > lo && is_white(s.get_char(hi - 1))
        invariant
            n == s@.len(),
            lo <= hi <= n,
            forall|k: int| hi <= k < n ==> is_white_space(s@[k]),
            lo < n ==> !is_white_space(s@[lo as int]),
        decreases hi - lo,
    {
        hi = hi - 1;
    }
    if lo == hi {
        lo = 0;
        hi = 0;
        proof {
            assert forall|k: int| 0 <= k < n implies is_white_space(s@[k]) by {
                if k < lo {
                } 
            }
        }
    }
    proof {
        assert(trimmed(s@, lo as int, hi as int));
        let (l2, h2) = choose|l2: int, h2: int| trimmed(s@, l2, h2);
        lemma_trimmed_unique(s@, lo as int, hi as int, l2, h2);
    }
    s.substring_char(lo, hi).to_owned()
}

/// Whether `c` is an ASCII decimal digit.
pub open spec fn is_digit(c: char) -> bool {
    '0' <= c <= '9'
}

/// Whether every character is an ASCII decimal digit.
pub open spec fn all_digits(s: Seq<char>) -> bool {
    forall|k: int| 0 <= k < s.len() ==> is_digit(#[trigger] s[k])
}

/// The value of a sequence of decimal digits.
pub open spec fn digits_value(s: Seq<char>) -> nat
    decreases s.len(),
{
    if s.len() == 0 {
        0
    } else {
        digits_value(s.drop_last()) * 10 + (s.last() as nat - '0' as nat) as nat
    }
}

/// The text after an optional leading `+`.
pub open spec fn unsigned_body(t: Seq<char>) -> Seq<char> {
    if t.len() > 0 && t[0] == '+' {
        t.drop_first()
    } else {
        t
    }
}

/// The value of `digits` when it is a non-empty run of digits worth at
/// most `limit`.
pub open spec fn bounded_digits(digits: Seq<char>, limit: nat) -> Option<nat> {
    if digits.len() > 0 && all_digits(digits) && digits_value(digits) <= limit {
        Some(digits_value(digits))
    } else {
        None
    }
}

/// What `t.parse::<u32>()` accepts: an optional `+` and at least one digit,
/// with a value that fits in `u32`.
pub open spec fn parsed_u32(t: Seq<char>) -> Option<u32> {
    match bounded_digits(unsigned_body(t), u32::MAX as nat) {
        Some(v) => Some(v as u32),
        None => None,
    }
}

/// What `t.parse::<i64>()` accepts: an optional `+` or `-` and at least one
/// digit, with a value that fits in `i64`.
pub open spec fn parsed_i64(t: Seq<char>) -> Option<i64> {
    if t.len() > 0 && t[0] == '-' {
        match bounded_digits(t.drop_first(), 0x8000_0000_0000_0000) {
            Some(v) => Some((-v) as i64),
            None => None,
        }
    } else {
        match bounded_digits(unsigned_body(t), i64::MAX as nat) {
            Some(v) => Some(v as i64),
            None => None,
        }
    }
}

proof fn lemma_digits_value_push(s: Seq<char>, c: char)
    ensures
        digits_value(s.push(c)) == digits_value(s) * 10 + (c as nat - '0' as nat) as nat,
{
    assert(s.push(c).drop_last() =~= s);
}

proof fn lemma_digits_value_grows(s: Seq<char>, k: int)
    requires
        0 <= k <= s.len(),
        all_digits(s),
    ensures
        digits_value(s.subrange(0, k)) <= digits_value(s),
    decreases s.len() - k,
{
    if k < s.len() {
        lemma_digits_value_grows(s, k + 1);
        lemma_digits_value_push(s.subrange(0, k), s[k]);
        assert(s.subrange(0, k).push(s[k]) =~= s.subrange(0, k + 1));
    } else {
        assert(s.subrange(0, k) =~= s);
    }
}

/// The value of the digits of `s` from `start` on, when they are a
/// non-empty run of digits worth at most `limit`.
fn digits_from(s: &str, start: usize, limit: u64) -> (r: Option<u64>)
    requires
        start <= s@.len(),
    ensures
        match bounded_digits(s@.subrange(start as int, s@.len() as int), limit as nat) {
            Some(v) => r == Some(v as u64),
            None => r is None,
        },
{
    let n = s.unicode_len();
    let ghost body = s@.subrange(start as int, n as int);
    if start >= n {
        return None;
    }
    let mut value: u64 = 0;
    let mut k = start;
    while k < n
        invariant
            n == s@.len(),
            body == s@.subrange(start as int, n as int),
            start <= k <= n,
            forall|j: int| start <= j < k ==> is_digit(s@[j]),
            value == digits_value(s@.subrange(start as int, k as int)),
            value <= limit,
        decreases n - k,
    {
        let c = s.get_char(k);
        if !('0' <= c && c <= '9') {
            assert(!is_digit(body[k - start]));
            return None;
        }
        let d = (c as u32 - '0' as u32) as u64;
        proof {
            lemma_digits_value_push(s@.subrange(start as int, k as int), c);
            assert(s@.subrange(start as int, k as int).push(c) =~= s@.subrange(
                start as int,
                k + 1,
            ));
        }
        if d > limit || value > (limit - d) / 10 {
            proof {
                assert(value * 10 + d > limit) by (nonlinear_arith)
                    requires
                        d > limit || value > (limit - d) / 10,
                        d <= 9,
                ;
                if all_digits(body) {
                    lemma_digits_value_grows(body, k + 1 - start);
                    assert(body.subrange(0, k + 1 - start) =~= s@.subrange(start as int, k + 1));
                }
            }
            return None;
        }
        assert(value * 10 + d <= limit) by (nonlinear_arith)
            requires
                d <= limit,
                value <= (limit - d) / 10,
        ;
        value = value * 10 + d;
        k = k + 1;
    }
    assert(s@.subrange(start as int, k as int) =~= body);
    Some(value)
}

/// `t.parse::<u32>()`.
pub fn parse_u32(t: &str) -> (r: Option<u32>)
    ensures
        r == parsed_u32(t@),
{
    let start: usize = if t.unicode_len() > 0 && t.get_char(0) == '+' {
        1
    } else {
        0
    };
    proof {
        assert(unsigned_body(t@) =~= t@.subrange(start as int, t@.len() as int));
    }
    match digits_from(t, start, 0xffff_ffff) {
        Some(v) => Some(v as u32),
        None => None,
    }
}

/// `t.parse::<i64>()`.
pub fn parse_i64(t: &str) -> (r: Option<i64>)
    ensures
        r == parsed_i64(t@),
{
    let n = t.unicode_len();
    if n > 0 && t.get_char(0) == '-' {
        proof {
            assert(t@.drop_first() =~= t@.subrange(1, t@.len() as int));
        }
        match digits_from(t, 1, 0x8000_0000_0000_0000) {
            Some(v) => {
                if v == 0x8000_0000_0000_0000 {
                    Some(i64::MIN)
                } else {
                    Some(-(v as i64))
                }
            },
            None => None,
        }
    } else {
        let start: usize = if n > 0 && t.get_char(0) == '+' {
            1
        } else {
            0
        };
        proof {
            assert(unsigned_body(t@) =~= t@.subrange(start as int, t@.len() as int));
        }
        match digits_from(t, start, 0x7fff_ffff_ffff_ffff) {
            Some(v) => Some(v as i64),
            None => None,
        }
    }
}

} // verus!
