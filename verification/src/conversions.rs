//! Human-readable renderings of playback values.

use vstd::prelude::*;
use crate::text::{decimal, push_char, push_decimal};

verus! {

/// Decimal representation padded with a leading zero to at least two digits.
pub open spec fn two_digits(n: nat) -> Seq<char> {
    if n < 10 {
        seq!['0'] + decimal(n)
    } else {
        decimal(n)
    }
}

/// The text shown for a playback time of `secs` whole seconds: `MM:SS` below one hour,
/// otherwise `H:MM:SS`, where the minutes field counts all whole minutes.
pub open spec fn spec_format_duration(secs: nat) -> Seq<char> {
    let sec = secs % 60;
    let min = secs / 60;
    let h = secs / 60 / 60;
    if h == 0 {
        two_digits(min) + seq![':'] + two_digits(sec)
    } else {
        decimal(h) + seq![':'] + two_digits(min) + seq![':'] + two_digits(sec)
    }
}

fn push_two_digits(s: &mut String, n: u64)
    ensures
        final(s)@ == old(s)@ + two_digits(n as nat),
{
    if n < 10 {
        push_char(s, '0');
    }
    push_decimal(s, n);
}

/// Formatted to represent playback times. "07:32"
pub fn format_duration(secs: u64) -> (r: String)
    ensures
        r@ == spec_format_duration(secs as nat),
{
    let sec = secs % 60;
    let min = secs / 60;
    let h = secs / 60 / 60;
    let mut s = String::new();
    if h != 0 {
        push_decimal(&mut s, h);
        push_char(&mut s, ':');
    }
    push_two_digits(&mut s, min);
    push_char(&mut s, ':');
    push_two_digits(&mut s, sec);
    s
}

} // verus!
