//! The report of how long a run took.

use vstd::prelude::*;
use vstd::string::StringExecFns;

verus! {

/// The character of the decimal digit `d`; 48 is the code of `'0'`.
pub open spec fn digit(d: int) -> char {
    (48 + d) as char
}

/// `n` in decimal, without leading zeros.
pub open spec fn decimal(n: nat) -> Seq<char>
    decreases n,
{
    if n < 10 {
        seq![digit(n as int)]
    } else {
        decimal(n / 10).push(digit((n % 10) as int))
    }
}

/// `n` in decimal, with a leading zero where it has a single digit.
pub open spec fn two_digits(n: nat) -> Seq<char> {
    if n < 10 {
        seq!['0'] + decimal(n)
    } else {
        decimal(n)
    }
}

/// The hours as they are shown: from the thirteenth hour on the count starts
/// again at one.
pub open spec fn shown_hours(hours: nat) -> nat {
    if hours > 12 {
        (hours - 12) as nat
    } else {
        hours
    }
}

/// The report for a run that took `hours` whole hours, `minutes` whole
/// minutes and `seconds` whole seconds, each counted from the start.
pub open spec fn elapsed_report(hours: nat, minutes: nat, seconds: nat) -> Seq<char> {
    "Time elapsed: "@ + two_digits(shown_hours(hours)) + "h:"@ + two_digits(minutes % 60) + "m:"@
        + two_digits(seconds % 60) + "s"@
}

/// Appends `n` in decimal to `out`.
fn push_decimal(out: &mut String, n: u32)
    ensures
        final(out)@ == old(out)@ + decimal(n as nat),
    decreases n,
{
    if n >= 10 {
        push_decimal(out, n / 10);
    }
    let d: u8 = (n % 10) as u8;
    out.push((48u8 + d) as char);
    assert(out@ =~= old(out)@ + decimal(n as nat));
}

/// Appends `n` in decimal to `out`, with a leading zero where it has a
/// single digit.
fn push_two_digits(out: &mut String, n: u32)
    ensures
        final(out)@ == old(out)@ + two_digits(n as nat),
{
    if n < 10 {
        out.push('0');
    }
    push_decimal(out, n);
    assert(out@ =~= old(out)@ + two_digits(n as nat));
}

/// Renders the report of the time a run took.
pub fn elapsed_message(hours: u32, minutes: u32, seconds: u32) -> (m: String)
    ensures
        m@ == elapsed_report(hours as nat, minutes as nat, seconds as nat),
{
    let shown = if hours > 12 {
        hours - 12
    } else {
        hours
    };
    let mut m = "Time elapsed: ".to_owned();
    push_two_digits(&mut m, shown);
    m.append("h:");
    push_two_digits(&mut m, minutes % 60);
    m.append("m:");
    push_two_digits(&mut m, seconds % 60);
    m.append("s");
    m
}

} // verus!
