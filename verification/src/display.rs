//! Text for the front end: a time in seconds as minutes and seconds.

use vstd::prelude::*;
use vstd::string::*;

verus! {

/// The character of the decimal digit `d`.
pub open spec fn digit_char(d: int) -> char
    recommends
        0 <= d < 10,
{
    if d == 0 {
        '0'
    } else if d == 1 {
        '1'
    } else if d == 2 {
        '2'
    } else if d == 3 {
        '3'
    } else if d == 4 {
        '4'
    } else if d == 5 {
        '5'
    } else if d == 6 {
        '6'
    } else if d == 7 {
        '7'
    } else if d == 8 {
        '8'
    } else {
        '9'
    }
}

/// The decimal digits of `n`, without leading zeros; one `0` for zero.
pub open spec fn decimal(n: nat) -> Seq<char>
    decreases n,
{
    if n < 10 {
        seq![digit_char(n as int)]
    } else {
        decimal(n / 10).push(digit_char((n % 10) as int))
    }
}

/// The decimal digits of `n`, with a leading zero where `n` has one digit.
pub open spec fn two_digits(n: nat) -> Seq<char> {
    if n < 10 {
        seq!['0'] + decimal(n)
    } else {
        decimal(n)
    }
}

/// `seconds` as minutes and seconds with a colon between them, each with at
/// least two digits.
pub open spec fn formatted_time(seconds: u64) -> Seq<char> {
    two_digits((seconds / 60) as nat) + seq![':'] + two_digits((seconds % 60) as nat)
}

/// The text of the digit `d`.
fn digit_text(d: u64) -> (text: &'static str)
    requires
        d < 10,
    ensures
        text@ == seq![digit_char(d as int)],
{
    proof {
        reveal_strlit("0");
        reveal_strlit("1");
        reveal_strlit("2");
        reveal_strlit("3");
        reveal_strlit("4");
        reveal_strlit("5");
        reveal_strlit("6");
        reveal_strlit("7");
        reveal_strlit("8");
        reveal_strlit("9");
    }
    let text: &'static str = if d == 0 {
        "0"
    } else if d == 1 {
        "1"
    } else if d == 2 {
        "2"
    } else if d == 3 {
        "3"
    } else if d == 4 {
        "4"
    } else if d == 5 {
        "5"
    } else if d == 6 {
        "6"
    } else if d == 7 {
        "7"
    } else if d == 8 {
        "8"
    } else {
        "9"
    };
    assert(text@ =~= seq![digit_char(d as int)]);
    text
}

/// Appends the decimal digits of `n` to `out`.
fn push_decimal(out: &mut String, n: u64)
    ensures
        final(out)@ == old(out)@ + decimal(n as nat),
    decreases n,
{
    if n >= 10 {
        push_decimal(out, n / 10);
    }
    out.append(digit_text(n % 10));
    assert(final(out)@ =~= old(out)@ + decimal(n as nat));
}

/// Appends the decimal digits of `n` to `out`, with a leading zero where `n`
/// has one digit.
fn push_two_digits(out: &mut String, n: u64)
    ensures
        final(out)@ == old(out)@ + two_digits(n as nat),
{
    if n < 10 {
        out.append("0");
        proof {
            reveal_strlit("0");
        }
    }
    push_decimal(out, n);
    assert(final(out)@ =~= old(out)@ + two_digits(n as nat));
}

/// Writes `seconds` as `MM:SS`: whole minutes, a colon, and the seconds
/// beyond them, each with at least two digits. The minutes take as many digits
/// as they need.
pub fn format_time(seconds: u64) -> (text: String)
    ensures
        text@ == formatted_time(seconds),
{
    let minutes: u64 = seconds / 60;
    let rest: u64 = seconds % 60;
    let mut text: String = String::new();
    push_two_digits(&mut text, minutes);
    text.append(":");
    proof {
        reveal_strlit(":");
    }
    push_two_digits(&mut text, rest);
    assert(text@ =~= formatted_time(seconds));
    text
}

} // verus!
