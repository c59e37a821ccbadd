//! Text for the panels: whole numbers in decimal and durations in hours and
//! minutes.

use std::time::Duration;
use vstd::prelude::*;
use vstd::string::StringExecFns;

verus! {

/// The character for one decimal digit.
pub open spec fn digit_char(d: nat) -> char
    recommends
        d < 10,
{
    seq!['0', '1', '2', '3', '4', '5', '6', '7', '8', '9'][d as int]
}

/// `n` written in decimal, without sign or leading zeros.
pub open spec fn decimal(n: nat) -> Seq<char>
    decreases n,
{
    if n < 10 {
        seq![digit_char(n)]
    } else {
        decimal(n / 10).push(digit_char(n % 10))
    }
}

/// A duration of `total_secs` seconds as hours and minutes, the hours left
/// out when there are none; seconds are dropped.
pub open spec fn duration_text(total_secs: nat) -> Seq<char> {
    let hours = total_secs / 3600;
    let minutes = (total_secs % 3600) / 60;
    if hours > 0 {
        decimal(hours) + seq!['h', ' '] + decimal(minutes) + seq!['m']
    } else {
        decimal(minutes) + seq!['m']
    }
}

/// The whole seconds in a duration, as `Duration::as_secs` counts them.
pub uninterp spec fn duration_secs(duration: Duration) -> u64;

/// `Duration::as_secs` returns the number of whole seconds that the
/// duration holds; nothing more is claimed of it.
pub assume_specification[ Duration::as_secs ](duration: &Duration) -> (secs: u64)
    ensures
        secs == duration_secs(*duration),
;

fn digit_str(d: u64) -> (text: &'static str)
    requires
        d < 10,
    ensures
        text@ == seq![digit_char(d as nat)],
{
    proof {
        reveal_strlit("0");
        reveal_strlit("1");
        reveal_strlit("2");
        reveal_strlit("3");
        reveal_strlit("4");
        reveal_strlit("5");
        reveal_strlit("6");
        reveal_strlit("7");
        reveal_strlit("8");
        reveal_strlit("9");
    }
    let text = if d == 0 {
        "0"
    } else if d == 1 {
        "1"
    } else if d == 2 {
        "2"
    } else if d == 3 {
        "3"
    } else if d == 4 {
        "4"
    } else if d == 5 {
        "5"
    } else if d == 6 {
        "6"
    } else if d == 7 {
        "7"
    } else if d == 8 {
        "8"
    } else {
        "9"
    };
    assert(text@ =~= seq![digit_char(d as nat)]);
    text
}

/// Appends `n` in decimal to `out`.
pub fn push_decimal(out: &mut String, n: u64)
    ensures
        final(out)@ == old(out)@ + decimal(n as nat),
    decreases n,
{
    if n >= 10 {
        push_decimal(out, n / 10);
    }
    out.append(digit_str(n % 10));
    assert(final(out)@ =~= old(out)@ + decimal(n as nat));
}

/// Renders a number of seconds as `"<h>h <m>m"`, or as `"<m>m"` under one
/// hour.
pub fn format_seconds(total_secs: u64) -> (text: String)
    ensures
        text@ == duration_text(total_secs as nat),
{
    let hours = total_secs / 3600;
    let minutes = (total_secs % 3600) / 60;
    let mut text = String::new();
    proof {
        reveal_strlit("h ");
        reveal_strlit("m");
    }
    if hours > 0 {
        push_decimal(&mut text, hours);
        text.append("h ");
    }
    push_decimal(&mut text, minutes);
    text.append("m");
    assert(text@ =~= duration_text(total_secs as nat));
    text
}

/// Renders a duration as hours and minutes.
pub fn format_duration(duration: Duration) -> (text: String)
    ensures
        text@ == duration_text(duration_secs(duration) as nat),
{
    format_seconds(duration.as_secs())
}

} // verus!
