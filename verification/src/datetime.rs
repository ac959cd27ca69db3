use vstd::prelude::*;
use vstd::string::{StrSliceExecFns, StringExecFns};

verus! {

/// What `chrono::DateTime::parse_from_rfc3339` followed by `timestamp`
/// makes of a string: the UTC epoch seconds of the instant it names, or
/// nothing when the string is not an RFC 3339 date-time. A deterministic
/// function of the characters alone.
pub uninterp spec fn rfc3339_secs_of(s: Seq<char>) -> Option<i64>;

/// Whether `chrono` accepts this many epoch milliseconds as a date-time,
/// and the epoch seconds it then assigns: the result of
/// `chrono::DateTime::from_timestamp_millis` followed by `timestamp`.
pub uninterp spec fn millis_to_secs(ms: i64) -> Option<i64>;

/// Whether this many epoch seconds lies inside `chrono`'s representable
/// date range: whether `chrono::DateTime::from_timestamp` accepts it.
pub uninterp spec fn secs_in_range(ts: i64) -> bool;

/// Relies on `chrono::DateTime::parse_from_rfc3339` and `timestamp`: the
/// parsed instant's epoch seconds, or nothing for a string that is not an
/// RFC 3339 date-time.
#[verifier::external_body]
fn rfc3339_secs(s: &str) -> (r: Option<i64>)
    ensures
        r == rfc3339_secs_of(s@),
{
    chrono::DateTime::parse_from_rfc3339(s).ok().map(|d| d.timestamp())
}

/// Relies on `chrono::DateTime::from_timestamp_millis` and `timestamp`:
/// accepted milliseconds map to their instant's epoch seconds, the
/// milliseconds divided by a thousand, rounded toward minus infinity.
#[verifier::external_body]
fn secs_from_millis(ms: i64) -> (r: Option<i64>)
    ensures
        r == millis_to_secs(ms),
        r matches Some(sec) ==> sec as int == ms as int / 1000,
{
    chrono::DateTime::from_timestamp_millis(ms).map(|d| d.timestamp())
}

/// Relies on `chrono::DateTime::from_timestamp` and `timestamp`: epoch
/// seconds inside `chrono`'s range come back unchanged.
#[verifier::external_body]
fn checked_secs(ts: i64) -> (r: Option<i64>)
    ensures
        (r is Some) == secs_in_range(ts),
        r matches Some(sec) ==> sec == ts,
{
    chrono::DateTime::from_timestamp(ts, 0).map(|d| d.timestamp())
}

/// What `chrono::NaiveDateTime::parse_from_str` followed by `and_utc` and
/// `timestamp` makes of a string under a format: the UTC epoch seconds of
/// the naive instant read as UTC, or nothing when the string does not match
/// the format. A deterministic function of the two strings alone.
pub uninterp spec fn naive_secs_of(s: Seq<char>, fmt: Seq<char>) -> Option<i64>;

/// Relies on `chrono::NaiveDateTime::parse_from_str`, `and_utc` and
/// `timestamp`: the parsed naive instant, read as UTC, in epoch seconds.
#[verifier::external_body]
fn naive_secs(s: &str, fmt: &str) -> (r: Option<i64>)
    ensures
        r == naive_secs_of(s@, fmt@),
{
    chrono::NaiveDateTime::parse_from_str(s, fmt).ok().map(|d| d.and_utc().timestamp())
}

/// A decimal digit.
pub open spec fn is_digit_char(c: char) -> bool {
    48 <= c as int <= 57
}

/// The value of a decimal digit.
pub open spec fn digit_value(c: char) -> int {
    c as int - 48
}

/// Every character is a decimal digit.
pub open spec fn all_digits(s: Seq<char>) -> bool {
    forall|i: int| 0 <= i < s.len() ==> is_digit_char(#[trigger] s[i])
}

/// The number a string of decimal digits denotes.
pub open spec fn digits_value(s: Seq<char>) -> int
    decreases s.len(),
{
    if s.len() == 0 {
        0
    } else {
        digits_value(s.drop_last()) * 10 + digit_value(s.last())
    }
}

/// The integer a string denotes: an optional sign, then one or more
/// decimal digits, exactly as the standard integer parse reads it.
pub open spec fn int_text_value(s: Seq<char>) -> Option<int> {
    if s.len() >= 1 && (s[0] == '-' || s[0] == '+') {
        if s.len() >= 2 && all_digits(s.subrange(1, s.len() as int)) {
            if s[0] == '-' {
                Some(-digits_value(s.subrange(1, s.len() as int)))
            } else {
                Some(digits_value(s.subrange(1, s.len() as int)))
            }
        } else {
            None
        }
    } else if s.len() >= 1 && all_digits(s) {
        Some(digits_value(s))
    } else {
        None
    }
}

/// The 64-bit integer a string denotes, or nothing when it is not an
/// integer or does not fit.
pub open spec fn parsed_i64(s: Seq<char>) -> Option<i64> {
    match int_text_value(s) {
        Some(v) => if i64::MIN <= v <= i64::MAX {
            Some(v as i64)
        } else {
            None
        },
        None => None,
    }
}

/// A digit string denotes a nonnegative number.
proof fn lemma_digits_value_nonneg(s: Seq<char>)
    requires
        all_digits(s),
    ensures
        digits_value(s) >= 0,
    decreases s.len(),
{
    if s.len() > 0 {
        assert(all_digits(s.drop_last())) by {
            assert(forall|i: int|
                0 <= i < s.len() - 1 ==> #[trigger] s.drop_last()[i] == s[i]);
        }
        lemma_digits_value_nonneg(s.drop_last());
        assert(is_digit_char(s.last()));
    }
}

/// A digit string denotes at least what any of its prefixes denotes.
proof fn lemma_digits_value_prefix_le(s: Seq<char>, k: int)
    requires
        all_digits(s),
        0 <= k <= s.len(),
    ensures
        digits_value(s.subrange(0, k)) <= digits_value(s),
    decreases s.len() - k,
{
    if k == s.len() {
        assert(s.subrange(0, k) =~= s);
    } else {
        let t = s.subrange(0, k + 1);
        assert(t.drop_last() =~= s.subrange(0, k));
        assert(t.last() == s[k]);
        assert(all_digits(s.subrange(0, k))) by {
            assert(forall|i: int|
                0 <= i < k ==> #[trigger] s.subrange(0, k)[i] == s[i]);
        }
        lemma_digits_value_nonneg(s.subrange(0, k));
        assert(is_digit_char(s[k]));
        assert(digits_value(t) == digits_value(s.subrange(0, k)) * 10 + digit_value(s[k]));
        assert(digits_value(s.subrange(0, k)) <= digits_value(t));
        lemma_digits_value_prefix_le(s, k + 1);
    }
}

/// Parses a 64-bit integer from a string: an optional sign, then decimal
/// digits; anything else, or a value that does not fit, is rejected.
pub fn parse_i64(s: &str) -> (r: Option<i64>)
    ensures
        r == parsed_i64(s@),
{
    let n = s.unicode_len();
    if n == 0 {
        return None;
    }
    let c0 = s.get_char(0);
    let neg = c0 == '-';
    let signed = c0 == '-' || c0 == '+';
    let start: usize = if signed {
        1
    } else {
        0
    };
    if n == start {
        return None;
    }
    let limit: u64 = if neg {
        9223372036854775808
    } else {
        9223372036854775807
    };
    let mut acc: u64 = 0;
    let mut i: usize = start;
    while i < n
        invariant
            start <= i <= n,
            n == s@.len(),
            n > start,
            signed == (s@[0] == '-' || s@[0] == '+'),
            neg == (s@[0] == '-'),
            start == if signed {
                1int
            } else {
                0int
            },
            limit == if neg {
                9223372036854775808u64
            } else {
                9223372036854775807u64
            },
            all_digits(s@.subrange(start as int, i as int)),
            acc as int == digits_value(s@.subrange(start as int, i as int)),
            acc <= limit,
        decreases n - i,
    {
        let c = s.get_char(i);
        let u = c as u32;
        if u < 48 || u > 57 {
            proof {
                assert(!is_digit_char(s@[i as int]));
                if signed {
                    assert(s@.subrange(1, n as int)[i as int - 1] == s@[i as int]);
                    assert(!all_digits(s@.subrange(1, n as int)));
                } else {
                    assert(!all_digits(s@));
                }
            }
            return None;
        }
        let d: u64 = (u - 48) as u64;
        let ghost prefix = s@.subrange(start as int, i as int);
        let ghost prefix1 = s@.subrange(start as int, i + 1);
        proof {
            assert(prefix1.drop_last() =~= prefix);
            assert(prefix1.last() == s@[i as int]);
            assert(all_digits(prefix1)) by {
                assert(forall|k: int|
                    0 <= k < prefix1.len() ==> #[trigger] prefix1[k] == s@[start + k]);
            }
            assert(digits_value(prefix1) == acc as int * 10 + d as int);
        }
        if acc > (limit - d) / 10 {
            proof {
                vstd::arithmetic::div_mod::lemma_fundamental_div_mod(
                    limit as int - d as int,
                    10,
                );
                assert(acc as int * 10 + d as int > limit as int);
                let digits = s@.subrange(start as int, n as int);
                if all_digits(digits) {
                    assert(prefix1 =~= digits.subrange(0, i + 1 - start));
                    lemma_digits_value_prefix_le(digits, i + 1 - start);
                    assert(digits_value(digits) > limit as int);
                    if signed {
                        assert(int_text_value(s@) == Some(
                            if neg {
                                -digits_value(digits)
                            } else {
                                digits_value(digits)
                            },
                        ));
                    } else {
                        assert(digits =~= s@);
                    }
                    assert(parsed_i64(s@) is None);
                } else {
                    if signed {
                        assert(!all_digits(s@.subrange(1, n as int)));
                    } else {
                        assert(exists|k: int|
                            0 <= k < digits.len() && !is_digit_char(#[trigger] digits[k]));
                        let k = choose|k: int|
                            0 <= k < digits.len() && !is_digit_char(#[trigger] digits[k]);
                        assert(s@[k] == digits[k]);
                        assert(!all_digits(s@));
                    }
                }
            }
            return None;
        }
        proof {
            vstd::arithmetic::div_mod::lemma_fundamental_div_mod(limit as int - d as int, 10);
        }
        acc = acc * 10 + d;
        i += 1;
    }
    proof {
        let digits = s@.subrange(start as int, n as int);
        assert(digits =~= s@.subrange(start as int, i as int));
        if signed {
            assert(digits =~= s@.subrange(1, n as int));
        } else {
            assert(digits =~= s@);
        }
        lemma_digits_value_nonneg(digits);
    }
    if neg {
        if acc == 9223372036854775808 {
            Some(i64::MIN)
        } else {
            Some(-(acc as i64))
        }
    } else {
        Some(acc as i64)
    }
}

/// What an integer date string denotes: read as epoch milliseconds when
/// `chrono` accepts it as such, else as epoch seconds when those are in
/// range; nothing otherwise.
pub open spec fn integer_date_of(s: Seq<char>) -> Option<i64> {
    match parsed_i64(s) {
        Some(v) => match millis_to_secs(v) {
            Some(sec) => Some(sec),
            None => if secs_in_range(v) {
                Some(v)
            } else {
                None
            },
        },
        None => None,
    }
}

/// What the tolerant date parse makes of a request's date string, trying
/// in order: nothing given for the empty string; an RFC 3339 date-time; an
/// integer read as epoch milliseconds, else epoch seconds; a naive
/// `T`-separated date-time with optional fractional seconds; a naive
/// space-separated date-time; a bare date, read as midnight UTC. Anything
/// else is rejected (outer `None`).
pub open spec fn flexible_date_of(s: Seq<char>) -> Option<Option<i64>> {
    if s.len() == 0 {
        Some(None)
    } else {
        match rfc3339_secs_of(s) {
            Some(t) => Some(Some(t)),
            None => match integer_date_of(s) {
                Some(t) => Some(Some(t)),
                None => match naive_secs_of(s, "%Y-%m-%dT%H:%M:%S%.f"@) {
                    Some(t) => Some(Some(t)),
                    None => match naive_secs_of(s, "%Y-%m-%d %H:%M:%S"@) {
                        Some(t) => Some(Some(t)),
                        None => match naive_secs_of(s + " 00:00:00"@, "%Y-%m-%d %H:%M:%S"@) {
                            Some(t) => Some(Some(t)),
                            None => None,
                        },
                    },
                },
            },
        }
    }
}

/// The tolerant date parse for a transaction's date field. An empty string
/// means no date was given (`Some(None)`); an RFC 3339 date-time, an
/// epoch-milliseconds or epoch-seconds integer, a naive date-time with `T`
/// or space separator, or a bare date (midnight UTC) yields its instant in
/// epoch seconds; anything else is rejected (`None`).
pub fn parse_date_string(s: &str) -> (r: Option<Option<i64>>)
    ensures
        r == flexible_date_of(s@),
{
    if s.unicode_len() == 0 {
        return Some(None);
    }
    if let Some(t) = rfc3339_secs(s) {
        return Some(Some(t));
    }
    if let Some(v) = parse_i64(s) {
        match secs_from_millis(v) {
            Some(sec) => {
                return Some(Some(sec));
            },
            None => {
                if let Some(t) = checked_secs(v) {
                    return Some(Some(t));
                }
            },
        }
    }
    if let Some(t) = naive_secs(s, "%Y-%m-%dT%H:%M:%S%.f") {
        return Some(Some(t));
    }
    if let Some(t) = naive_secs(s, "%Y-%m-%d %H:%M:%S") {
        return Some(Some(t));
    }
    let mut padded = String::from_str(s);
    padded.append(" 00:00:00");
    if let Some(t) = naive_secs(padded.as_str(), "%Y-%m-%d %H:%M:%S") {
        return Some(Some(t));
    }
    None
}

} // verus!
