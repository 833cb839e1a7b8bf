//! The simulated time as text: days, then hours, minutes and seconds of the
//! day.

use vstd::prelude::*;
use vstd::string::*;

verus! {

/// Seconds in a day.
pub const SECONDS_PER_DAY: u32 = 86400;

/// The ten decimal digits.
pub open spec fn decimal_digits() -> Seq<char> {
    seq!['0', '1', '2', '3', '4', '5', '6', '7', '8', '9']
}

/// A number in decimal, without leading zeros; zero is `0`.
pub open spec fn decimal_text(n: nat) -> Seq<char>
    decreases n,
{
    if n < 10 {
        seq![decimal_digits()[n as int]]
    } else {
        decimal_text(n / 10) + seq![decimal_digits()[(n % 10) as int]]
    }
}

/// A number below 100 in two decimal digits.
pub open spec fn two_digit_text(n: nat) -> Seq<char>
    recommends
        n < 100,
{
    seq![decimal_digits()[(n / 10) as int], decimal_digits()[(n % 10) as int]]
}

/// The simulated time as text: a minus sign where it is negative, the whole
/// days, a space, and the hours, minutes and seconds of the day in two digits
/// each with colons between them.
pub open spec fn simulation_time_text(negative: bool, days: nat, second_of_day: nat) -> Seq<char>
    recommends
        second_of_day < SECONDS_PER_DAY,
{
    (if negative {
        seq!['-']
    } else {
        Seq::empty()
    }) + decimal_text(days) + seq![' '] + two_digit_text(second_of_day / 3600) + seq![':']
        + two_digit_text(second_of_day % 3600 / 60) + seq![':'] + two_digit_text(
        second_of_day % 60,
    )
}

/// One decimal digit as text.
fn digit_str(d: u64) -> (text: &'static str)
    requires
        d < 10,
    ensures
        text@ == seq![decimal_digits()[d as int]],
{
    proof {
        reveal_strlit("0");
        reveal_strlit("1");
        reveal_strlit("2");
        reveal_strlit("3");
        reveal_strlit("4");
        reveal_strlit("5");
        reveal_strlit("6");
        reveal_strlit("7");
        reveal_strlit("8");
        reveal_strlit("9");
    }
    let text = match d {
        0 => "0",
        1 => "1",
        2 => "2",
        3 => "3",
        4 => "4",
        5 => "5",
        6 => "6",
        7 => "7",
        8 => "8",
        _ => "9",
    };
    assert(text@ =~= seq![decimal_digits()[d as int]]);
    text
}

/// Appends a number in decimal.
fn append_decimal(text: &mut String, n: u64)
    ensures
        final(text)@ == old(text)@ + decimal_text(n as nat),
    decreases n,
{
    if n >= 10 {
        append_decimal(text, n / 10);
    }
    text.append(digit_str(n % 10));
    assert(text@ =~= old(text)@ + decimal_text(n as nat));
}

/// Appends a number below 100 in two digits.
fn append_two_digits(text: &mut String, n: u32)
    requires
        n < 100,
    ensures
        final(text)@ == old(text)@ + two_digit_text(n as nat),
{
    let tens: u64 = (n / 10) as u64;
    let ones: u64 = (n % 10) as u64;
    text.append(digit_str(tens));
    text.append(digit_str(ones));
    assert(text@ =~= old(text)@ + two_digit_text(n as nat));
}

/// Writes the simulated time, given its sign, its whole days and the whole
/// seconds that have gone by of the day that follows them.
pub fn format_simulation_time(negative: bool, days: u64, second_of_day: u32) -> (text: String)
    requires
        second_of_day < SECONDS_PER_DAY,
    ensures
        text@ == simulation_time_text(negative, days as nat, second_of_day as nat),
{
    proof {
        reveal_strlit("-");
        reveal_strlit(" ");
        reveal_strlit(":");
    }
    let hours: u32 = second_of_day / 3600;
    let minutes: u32 = second_of_day % 3600 / 60;
    let seconds: u32 = second_of_day % 60;
    let mut text = String::new();
    if negative {
        text.append("-");
    }
    append_decimal(&mut text, days);
    text.append(" ");
    append_two_digits(&mut text, hours);
    text.append(":");
    append_two_digits(&mut text, minutes);
    text.append(":");
    append_two_digits(&mut text, seconds);
    assert(text@ =~= simulation_time_text(negative, days as nat, second_of_day as nat));
    text
}

} // verus!
