//! The texts of the display: numbers in decimal, right-aligned, and the
//! status line.

use vstd::prelude::*;
use vstd::slice::slice_to_vec;
use vstd::string::StringSliceAdditionalSpecFns;
use crate::rate_limit::{all_digits, digits_value, spec_parse_decimal, RateLimitInfo};

verus! {

/// The ASCII digit for `d`.
pub open spec fn digit_char(d: nat) -> u8
    recommends
        d < 10,
{
    (0x30 + d) as u8
}

/// `n` written in decimal without leading zeros.
pub open spec fn decimal_digits(n: nat) -> Seq<u8>
    decreases n,
{
    if n < 10 {
        seq![digit_char(n)]
    } else {
        decimal_digits(n / 10).push(digit_char(n % 10))
    }
}

/// `text` right-aligned in `width` columns: spaces are put in front of a
/// shorter text, a longer one is left as it is.
pub open spec fn spec_pad_left(text: Seq<u8>, width: nat) -> Seq<u8> {
    if text.len() >= width {
        text
    } else {
        Seq::new((width - text.len()) as nat, |i: int| 0x20u8) + text
    }
}

/// `text` with a minus sign in front when `negative`.
pub open spec fn with_sign(negative: bool, text: Seq<u8>) -> Seq<u8> {
    if negative {
        seq![0x2du8] + text
    } else {
        text
    }
}

/// The size of `v`.
pub open spec fn magnitude(v: int) -> nat {
    if v < 0 {
        (-v) as nat
    } else {
        v as nat
    }
}

/// A value held in tenths, written with one decimal place in at least four
/// columns: 215 reads `21.5`, -5 reads `-0.5`, 0 reads ` 0.0`.
pub open spec fn spec_format_tenths(v: int) -> Seq<u8> {
    spec_pad_left(
        with_sign(
            v < 0,
            decimal_digits(magnitude(v) / 10) + seq![0x2eu8, digit_char(magnitude(v) % 10)],
        ),
        4,
    )
}

/// A whole number written in at least five columns: 40 reads `   40`.
pub open spec fn spec_format_whole(v: int) -> Seq<u8> {
    spec_pad_left(with_sign(v < 0, decimal_digits(magnitude(v))), 5)
}

/// Appends `n` in decimal to `out`.
pub fn push_decimal(out: &mut Vec<u8>, n: u64)
    ensures
        final(out)@ == old(out)@ + decimal_digits(n as nat),
    decreases n,
{
    if n >= 10 {
        push_decimal(out, n / 10);
    }
    out.push(0x30 + (n % 10) as u8);
    assert(out@ =~= old(out)@ + decimal_digits(n as nat));
}

/// Right-aligns `text` in `width` columns.
pub fn pad_left(text: Vec<u8>, width: usize) -> (r: Vec<u8>)
    ensures
        r@ == spec_pad_left(text@, width as nat),
{
    let n: usize = text.len();
    if n >= width {
        return text;
    }
    let mut out: Vec<u8> = Vec::new();
    let mut i: usize = 0;
    while i < width - n
        invariant
            n < width,
            0 <= i <= width - n,
            out@ == Seq::new(i as nat, |k: int| 0x20u8),
        decreases width - n - i,
    {
        out.push(0x20);
        i = i + 1;
        assert(out@ =~= Seq::new(i as nat, |k: int| 0x20u8));
    }
    let mut j: usize = 0;
    while j < n
        invariant
            n == text@.len(),
            0 <= j <= n,
            out@ == Seq::new((width - n) as nat, |k: int| 0x20u8) + text@.subrange(0, j as int),
        decreases n - j,
    {
        out.push(text[j]);
        j = j + 1;
        assert(out@ =~= Seq::new((width - n) as nat, |k: int| 0x20u8) + text@.subrange(0, j as int));
    }
    assert(text@.subrange(0, n as int) =~= text@);
    out
}

/// The size of `v` as an unsigned number.
pub fn magnitude_of(v: i64) -> (r: u64)
    ensures
        r == magnitude(v as int),
{
    if v < 0 {
        (-(v as i128)) as u64
    } else {
        v as u64
    }
}

/// Writes a value held in tenths with one decimal place.
pub fn format_tenths(v: i64) -> (r: Vec<u8>)
    ensures
        r@ == spec_format_tenths(v as int),
{
    let size: u64 = magnitude_of(v);
    let mut text: Vec<u8> = Vec::new();
    if v < 0 {
        text.push(0x2d);
    }
    push_decimal(&mut text, size / 10);
    text.push(0x2e);
    text.push(0x30 + (size % 10) as u8);
    assert(text@ =~= with_sign(
        v < 0,
        decimal_digits(magnitude(v as int) / 10) + seq![0x2eu8, digit_char(magnitude(v as int) % 10)],
    ));
    pad_left(text, 4)
}

/// Writes a whole number.
pub fn format_whole(v: i64) -> (r: Vec<u8>)
    ensures
        r@ == spec_format_whole(v as int),
{
    let size: u64 = magnitude_of(v);
    let mut text: Vec<u8> = Vec::new();
    if v < 0 {
        text.push(0x2d);
    }
    push_decimal(&mut text, size);
    assert(text@ =~= with_sign(v < 0, decimal_digits(magnitude(v as int))));
    pad_left(text, 5)
}

/// What stands for a value that is not there: two dashes.
pub open spec fn spec_placeholder() -> Seq<u8> {
    "--".spec_bytes()
}

/// The text shown for a value that is not there.
pub fn placeholder() -> (r: Vec<u8>)
    ensures
        r@ == spec_placeholder(),
{
    slice_to_vec("--".as_bytes())
}

/// The quota part of the status line: `API: `, followed by what remains and
/// the limit, separated by a slash, when both are known.
pub open spec fn spec_rate_limit_text(rate_limit: RateLimitInfo) -> Seq<u8> {
    if rate_limit.limit is Some && rate_limit.remaining is Some {
        "API: ".spec_bytes() + decimal_digits(rate_limit.remaining->Some_0 as nat) + seq![0x2fu8]
            + decimal_digits(rate_limit.limit->Some_0 as nat)
    } else {
        "API: ".spec_bytes()
    }
}

/// Writes the quota part of the status line.
pub fn rate_limit_text(rate_limit: &RateLimitInfo) -> (r: Vec<u8>)
    ensures
        r@ == spec_rate_limit_text(*rate_limit),
{
    let mut text: Vec<u8> = slice_to_vec("API: ".as_bytes());
    if let Some(limit) = rate_limit.limit {
        if let Some(remaining) = rate_limit.remaining {
            push_decimal(&mut text, remaining as u64);
            text.push(0x2f);
            push_decimal(&mut text, limit as u64);
            assert(text@ =~= spec_rate_limit_text(*rate_limit));
        }
    }
    text
}

/// The connectivity part of the status line: `WIFI: OK` or `WIFI: NC`.
pub open spec fn spec_wifi_text(connected: bool) -> Seq<u8> {
    if connected {
        "WIFI: OK".spec_bytes()
    } else {
        "WIFI: NC".spec_bytes()
    }
}

/// Writes the connectivity part of the status line.
pub fn wifi_text(connected: bool) -> (r: Vec<u8>)
    ensures
        r@ == spec_wifi_text(connected),
{
    if connected {
        slice_to_vec("WIFI: OK".as_bytes())
    } else {
        slice_to_vec("WIFI: NC".as_bytes())
    }
}

/// A number written in decimal consists of digits only, at least one, and
/// they write that number.
pub proof fn lemma_decimal_digits_value(n: nat)
    ensures
        decimal_digits(n).len() >= 1,
        all_digits(decimal_digits(n)),
        digits_value(decimal_digits(n)) == n,
    decreases n,
{
    let written = decimal_digits(n);
    if n < 10 {
        assert(written.drop_last() =~= Seq::<u8>::empty());
        assert(digits_value(written.drop_last()) == 0);
    } else {
        lemma_decimal_digits_value(n / 10);
        assert(written.drop_last() =~= decimal_digits(n / 10));
    }
}

/// What the display writes, the header reader reads back: a number written
/// in decimal is read as that number, provided it is within the reader's
/// bound.
pub proof fn lemma_written_number_reads_back(n: nat, max: nat)
    requires
        n <= max,
    ensures
        spec_parse_decimal(decimal_digits(n), max) == Some(n),
{
    lemma_decimal_digits_value(n);
    assert(decimal_digits(n)[0] != 0x2b);
}

} // verus!
