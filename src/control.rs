//! The operator's reload command: read the process marker, check that the
//! process is there, and signal it. Every way this can fail is reported.
use vstd::prelude::*;
use crate::text::{is_white, is_white_char};

verus! {

/// Why the reload command failed.
#[derive(Debug, Clone, Copy, PartialEq, Eq, Structural)]
pub enum ReloadCommandError {
    /// The process marker could not be read: the server is probably not running.
    MarkerUnreadable,
    /// The process marker does not hold a process id.
    MarkerMalformed,
    /// No process has the recorded id; the stale marker is to be removed.
    ProcessGone,
    /// The process exists but the reload signal could not be delivered.
    SignalFailed,
}

pub open spec fn is_digit(c: char) -> bool {
    48 <= (c as u32) && (c as u32) <= 57
}

pub open spec fn all_digits(d: Seq<char>) -> bool {
    forall|i: int| 0 <= i < d.len() ==> is_digit(#[trigger] d[i])
}

/// The number that a run of decimal digits denotes.
pub open spec fn digits_value(d: Seq<char>) -> int
    decreases d.len(),
{
    if d.len() == 0 {
        0
    } else {
        digits_value(d.drop_last()) * 10 + ((d.last() as u32) - 48)
    }
}

/// The integer that `t` spells: an optional sign, then one or more digits.
pub open spec fn signed_value(t: Seq<char>) -> Option<int> {
    if t.len() > 0 && (t[0] == '-' || t[0] == '+') {
        let d = t.drop_first();
        if d.len() > 0 && all_digits(d) {
            Some(if t[0] == '-' { -digits_value(d) } else { digits_value(d) })
        } else {
            None
        }
    } else if t.len() > 0 && all_digits(t) {
        Some(digits_value(t))
    } else {
        None
    }
}

/// The process id that a trimmed marker text holds, if it is a 32-bit integer.
pub open spec fn pid_of(t: Seq<char>) -> Option<i32> {
    match signed_value(t) {
        Some(v) => if i32::MIN <= v && v <= i32::MAX {
            Some(v as i32)
        } else {
            None
        },
        None => None,
    }
}

/// `s.subrange(a, b)` is `s` without its leading and trailing white space.
pub open spec fn trim_bounds(s: Seq<char>, a: int, b: int) -> bool {
    &&& 0 <= a <= b <= s.len()
    &&& forall|i: int| 0 <= i < a ==> is_white(#[trigger] s[i])
    &&& forall|i: int| b <= i < s.len() ==> is_white(#[trigger] s[i])
    &&& a < b ==> !is_white(s[a]) && !is_white(s[b - 1])
}

/// The process id written in a marker file, read the way `str::parse::<i32>`
/// reads the text with its surrounding white space trimmed.
pub fn parse_pid(text: &str) -> (r: Option<i32>)
    ensures
        forall|a: int, b: int| trim_bounds(text@, a, b) ==> r == pid_of(text@.subrange(a, b)),
{
    let n = text.unicode_len();
    let mut a: usize = 0;
    while a < n && is_white_char(text.get_char(a))
        invariant
            n == text@.len(),
            a <= n,
            forall|i: int| 0 <= i < a ==> is_white(#[trigger] text@[i]),
        decreases n - a,
    {
        a = a + 1;
    }
    let mut b: usize = n;
    while b > a && is_white_char(text.get_char(b - 1))
        invariant
            n == text@.len(),
            a <= b <= n,
            forall|i: int| b <= i < n ==> is_white(#[trigger] text@[i]),
        decreases b,
    {
        b = b - 1;
    }
    let ghost s = text@;
    let ghost t = s.subrange(a as int, b as int);
    proof {
        assert(trim_bounds(s, a as int, b as int));
        assert forall|a2: int, b2: int| trim_bounds(s, a2, b2) implies s.subrange(a2, b2) =~= t by {
            if a2 < b2 {
                if a2 < a {
                    assert(is_white(s[a2]));
                }
                if a2 > a {
                    if a < b {
                        assert(is_white(s[a as int]));
                    } else {
                        assert(is_white(s[a2]));
                    }
                }
                if b2 > b {
                    assert(is_white(s[b2 - 1]));
                }
                if b2 < b {
                    if a < b {
                        assert(is_white(s[b - 1]));
                    }
                }
            } else {
                if a < b {
                    if a < a2 {
                        assert(is_white(s[a as int]));
                    } else {
                        assert(is_white(s[b - 1]));
                    }
                }
            }
        }
    }
    if a == b {
        return None;
    }
    let first = text.get_char(a);
    let negative = first == '-';
    let start: usize = if first == '-' || first == '+' { a + 1 } else { a };
    if start == b {
        return None;
    }
    let ghost d = s.subrange(start as int, b as int);
    proof {
        if first == '-' || first == '+' {
            assert(t.drop_first() =~= d);
        } else {
            assert(t =~= d);
        }
    }
    let limit: i64 = 2147483648;
    let mut value: i64 = 0;
    let mut i: usize = start;
    while i < b
        invariant
            n == text@.len(),
            s == text@,
            start <= i <= b <= n,
            d == s.subrange(start as int, b as int),
            a < b,
            t == s.subrange(a as int, b as int),
            first == s[a as int],
            negative == (first == '-'),
            first == '-' || first == '+' ==> start == a + 1 && t.drop_first() == d,
            !(first == '-' || first == '+') ==> start == a && t == d,
            forall|a2: int, b2: int| trim_bounds(s, a2, b2) ==> s.subrange(a2, b2) == t,
            forall|k: int| start <= k < i ==> is_digit(#[trigger] s[k]),
            limit == 2147483648,
            0 <= value <= limit + 1,
            value <= limit ==> value == digits_value(s.subrange(start as int, i as int)),
            value > limit ==> digits_value(s.subrange(start as int, i as int)) > limit,
        decreases b - i,
    {
        let c = text.get_char(i);
        let code = c as u32;
        if code < 48 || code > 57 {
            proof {
                assert(!is_digit(d[i - start]));
                assert(!all_digits(d));
                assert(signed_value(t) is None);
            }
            return None;
        }
        let ghost prev = s.subrange(start as int, i as int);
        let ghost next = s.subrange(start as int, i + 1);
        proof {
            assert(next.drop_last() =~= prev);
            assert(next.last() == c);
        }
        let digit = (code - 48) as i64;
        if value > limit {
            proof {
                assert(digits_value(next) == digits_value(prev) * 10 + digit);
            }
        } else {
            proof {
                assert(0 <= value * 10 <= 21474836480) by (nonlinear_arith)
                    requires
                        0 <= value <= 2147483648,
                ;
            }
            value = value * 10 + digit;
            if value > limit {
                value = limit + 1;
            }
        }
        i = i + 1;
    }
    proof {
        assert(s.subrange(start as int, i as int) =~= d);
        assert(all_digits(d));
    }
    if negative {
        if value > limit {
            None
        } else {
            Some((0 - value) as i32)
        }
    } else {
        if value >= limit {
            None
        } else {
            Some(value as i32)
        }
    }
}

/// The process id recorded in the marker, or why there is none.
pub fn pid_from_marker(contents: Option<&String>) -> (r: Result<i32, ReloadCommandError>)
    ensures
        contents is None ==> r == Err::<i32, ReloadCommandError>(ReloadCommandError::MarkerUnreadable),
        contents matches Some(text) ==> forall|a: int, b: int|
            trim_bounds(text@, a, b) ==> r == (match pid_of(text@.subrange(a, b)) {
                Some(p) => Ok(p),
                None => Err(ReloadCommandError::MarkerMalformed),
            }),
{
    match contents {
        None => Err(ReloadCommandError::MarkerUnreadable),
        Some(text) => match parse_pid(text.as_str()) {
            Some(p) => Ok(p),
            None => Err(ReloadCommandError::MarkerMalformed),
        },
    }
}

/// The outcome of signalling the recorded process: an absent process and an
/// undelivered signal are both failures, never a silent success.
pub fn signal_outcome(process_alive: bool, signal_delivered: bool) -> (r: Result<(), ReloadCommandError>)
    ensures
        !process_alive ==> r == Err::<(), ReloadCommandError>(ReloadCommandError::ProcessGone),
        process_alive && !signal_delivered ==> r == Err::<(), ReloadCommandError>(
            ReloadCommandError::SignalFailed,
        ),
        r is Ok <==> process_alive && signal_delivered,
{
    if !process_alive {
        Err(ReloadCommandError::ProcessGone)
    } else if !signal_delivered {
        Err(ReloadCommandError::SignalFailed)
    } else {
        Ok(())
    }
}

} // verus!
