//! Small shared helpers: the wall clock and saturating subtraction.

use vstd::prelude::*;

verus! {

/// `a - b`, floored at zero, as `u64::saturating_sub` computes it.
pub open spec fn spec_sat_sub(a: u64, b: u64) -> u64 {
    if a >= b {
        (a - b) as u64
    } else {
        0u64
    }
}

/// Saturating subtraction on milliseconds timestamps.
pub fn sat_sub(a: u64, b: u64) -> (r: u64)
    ensures
        r == spec_sat_sub(a, b),
{
    if a >= b {
        a - b
    } else {
        0
    }
}

/// The digit character for one decimal digit.
pub open spec fn spec_decimal_digit(d: int) -> char {
    ((48 + d) as u8) as char
}

/// The decimal digits of a nonnegative number, most significant first.
pub open spec fn spec_decimal(n: int) -> Seq<char>
    decreases n,
{
    if n < 10 {
        seq![spec_decimal_digit(n)]
    } else {
        spec_decimal(n / 10).push(spec_decimal_digit(n % 10))
    }
}

fn decimal_digit_char(d: u64) -> (c: char)
    requires
        d < 10,
    ensures
        c == spec_decimal_digit(d as int),
{
    match d {
        0 => '0',
        1 => '1',
        2 => '2',
        3 => '3',
        4 => '4',
        5 => '5',
        6 => '6',
        7 => '7',
        8 => '8',
        _ => '9',
    }
}

/// Renders a number in decimal.
pub fn u64_to_decimal(n: u64) -> (r: String)
    ensures
        r@ == spec_decimal(n as int),
    decreases n,
{
    if n < 10 {
        let mut s = String::new();
        crate::text::push_char(&mut s, decimal_digit_char(n));
        proof {
            assert(Seq::<char>::empty().push(spec_decimal_digit(n as int)) =~= seq![
                spec_decimal_digit(n as int),
            ]);
        }
        s
    } else {
        let mut s = u64_to_decimal(n / 10);
        crate::text::push_char(&mut s, decimal_digit_char(n % 10));
        s
    }
}

/// Returns the current time as milliseconds since Unix epoch.
///
/// Relies on std::time::SystemTime::now, read as milliseconds since
/// UNIX_EPOCH; a clock before the epoch reads as zero. Nothing can be
/// promised of the value: callers treat it as arbitrary.
#[verifier::external_body]
pub fn now_epoch_ms() -> u64 {
    std::time::SystemTime::now().duration_since(std::time::UNIX_EPOCH).map(
        |duration| duration.as_millis() as u64,
    ).unwrap_or(0)
}

} // verus!
