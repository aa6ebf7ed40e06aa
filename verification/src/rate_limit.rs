//! The API quota last reported by the cloud service, read from the three
//! quota headers of a response.

use vstd::prelude::*;
use vstd::string::StringSliceAdditionalSpecFns;

verus! {

/// Whether `b` is an ASCII decimal digit.
pub open spec fn is_digit(b: u8) -> bool {
    0x30 <= b <= 0x39
}

/// Whether every byte of `s` is a decimal digit.
pub open spec fn all_digits(s: Seq<u8>) -> bool {
    forall|i: int| 0 <= i < s.len() ==> is_digit(#[trigger] s[i])
}

/// The number that a byte stands for: its digit, or zero for any other byte.
pub open spec fn digit_value(b: u8) -> nat {
    if is_digit(b) {
        (b - 0x30) as nat
    } else {
        0
    }
}

/// The number that a sequence of digits writes in base ten.
pub open spec fn digits_value(s: Seq<u8>) -> nat
    decreases s.len(),
{
    if s.len() == 0 {
        0
    } else {
        digits_value(s.drop_last()) * 10 + digit_value(s.last())
    }
}

/// `s` without one leading plus sign.
pub open spec fn without_plus(s: Seq<u8>) -> Seq<u8> {
    if s.len() > 0 && s[0] == 0x2b {
        s.drop_first()
    } else {
        s
    }
}

/// The unsigned number that `s` writes, if it writes one no larger than
/// `max`: an optional plus sign, then one or more decimal digits.
pub open spec fn spec_parse_decimal(s: Seq<u8>, max: nat) -> Option<nat> {
    let digits = without_plus(s);
    if digits.len() > 0 && all_digits(digits) && digits_value(digits) <= max {
        Some(digits_value(digits))
    } else {
        None
    }
}

/// A prefix never writes a larger number than the whole sequence.
pub proof fn lemma_prefix_value(s: Seq<u8>, k: int)
    requires
        0 <= k <= s.len(),
    ensures
        digits_value(s.subrange(0, k)) <= digits_value(s),
    decreases s.len(),
{
    if k == s.len() {
        assert(s.subrange(0, k) =~= s);
    } else {
        lemma_prefix_value(s.drop_last(), k);
        assert(s.drop_last().subrange(0, k) =~= s.subrange(0, k));
    }
}

/// Reads an unsigned decimal number no larger than `max`.
pub fn parse_decimal(bytes: &[u8], max: u64) -> (r: Option<u64>)
    ensures
        match r {
            Some(v) => spec_parse_decimal(bytes@, max as nat) == Some(v as nat),
            None => spec_parse_decimal(bytes@, max as nat) is None,
        },
{
    let n: usize = bytes.len();
    let start: usize = if n > 0 && bytes[0] == 0x2b {
        1
    } else {
        0
    };
    let ghost digits = without_plus(bytes@);
    assert(digits =~= bytes@.subrange(start as int, n as int));
    if start == n {
        return None;
    }
    let mut acc: u64 = 0;
    let mut i: usize = start;
    while i < n
        invariant
            start <= i <= n,
            n == bytes@.len(),
            digits == bytes@.subrange(start as int, n as int),
            digits == without_plus(bytes@),
            all_digits(digits.subrange(0, i - start)),
            acc == digits_value(digits.subrange(0, i - start)),
            acc <= max,
        decreases n - i,
    {
        let b: u8 = bytes[i];
        let ghost k: int = i - start;
        assert(digits[k] == b);
        if b < 0x30 || b > 0x39 {
            assert(!is_digit(digits[k]));
            return None;
        }
        let digit: u64 = (b - 0x30) as u64;
        proof {
            let longer = digits.subrange(0, k + 1);
            assert(longer.drop_last() =~= digits.subrange(0, k));
            assert(longer.last() == b);
            assert(digits_value(longer) == acc * 10 + digit);
            lemma_prefix_value(digits, k + 1);
        }
        if digit > max || acc > (max - digit) / 10 {
            assert(acc * 10 + digit > max);
            assert(digits_value(digits) > max);
            return None;
        }
        acc = acc * 10 + digit;
        i = i + 1;
    }
    assert(digits.subrange(0, n - start) =~= digits);
    Some(acc)
}

/// The quota that the service last reported: the limit, what remains of it,
/// and when it is reset. Each part is absent until a response carries it.
#[derive(Clone, Copy, Debug, PartialEq, Eq, Structural)]
pub struct RateLimitInfo {
    pub limit: Option<usize>,
    pub remaining: Option<usize>,
    pub reset: Option<u64>,
}

/// What a quota header yields as a count: its number, if it is present and
/// writes one that fits.
pub open spec fn header_count(value: Option<&str>) -> Option<usize> {
    match value {
        Some(s) => match spec_parse_decimal(s.spec_bytes(), usize::MAX as nat) {
            Some(v) => Some(v as usize),
            None => None,
        },
        None => None,
    }
}

/// What a quota header yields as a time: its number, if it is present and
/// writes one that fits.
pub open spec fn header_time(value: Option<&str>) -> Option<u64> {
    match value {
        Some(s) => match spec_parse_decimal(s.spec_bytes(), u64::MAX as nat) {
            Some(v) => Some(v as u64),
            None => None,
        },
        None => None,
    }
}

/// Reads a quota header as a count.
pub fn parse_count(value: Option<&str>) -> (r: Option<usize>)
    ensures
        r == header_count(value),
{
    match value {
        Some(s) => match parse_decimal(s.as_bytes(), usize::MAX as u64) {
            Some(v) => Some(v as usize),
            None => None,
        },
        None => None,
    }
}

/// Reads a quota header as a time.
pub fn parse_time(value: Option<&str>) -> (r: Option<u64>)
    ensures
        r == header_time(value),
{
    match value {
        Some(s) => parse_decimal(s.as_bytes(), u64::MAX),
        None => None,
    }
}

impl RateLimitInfo {
    /// The quota before any response: every part absent.
    pub fn new() -> (r: Self)
        ensures
            r == (RateLimitInfo { limit: None, remaining: None, reset: None }),
    {
        RateLimitInfo { limit: None, remaining: None, reset: None }
    }

    /// The quota that one response reports. Each argument is the value of one
    /// quota header, absent when the response does not carry it; a header that
    /// does not write a number counts as absent.
    pub fn from_headers(limit: Option<&str>, remaining: Option<&str>, reset: Option<&str>) -> (r: Self)
        ensures
            r.limit == header_count(limit),
            r.remaining == header_count(remaining),
            r.reset == header_time(reset),
    {
        RateLimitInfo {
            limit: parse_count(limit),
            remaining: parse_count(remaining),
            reset: parse_time(reset),
        }
    }
}

impl Default for RateLimitInfo {
    fn default() -> (r: Self)
        ensures
            r == (RateLimitInfo { limit: None, remaining: None, reset: None }),
    {
        RateLimitInfo::new()
    }
}

} // verus!
