//! Decimal and clock-string formatting, verified down to the character.

use vstd::prelude::*;

verus! {

/// The ASCII character for a single decimal digit.
pub open spec fn spec_digit(d: int) -> char {
    if d == 0 {
        '0'
    } else if d == 1 {
        '1'
    } else if d == 2 {
        '2'
    } else if d == 3 {
        '3'
    } else if d == 4 {
        '4'
    } else if d == 5 {
        '5'
    } else if d == 6 {
        '6'
    } else if d == 7 {
        '7'
    } else if d == 8 {
        '8'
    } else {
        '9'
    }
}

/// Decimal representation of a non-negative integer, most significant
/// digit first, with no leading zeros (a lone `0` for zero).
pub open spec fn spec_dec(n: int) -> Seq<char>
    decreases n,
{
    if n < 10 {
        seq![spec_digit(n)]
    } else {
        spec_dec(n / 10) + seq![spec_digit(n % 10)]
    }
}

/// Exactly two digits, zero padded.
pub open spec fn spec_two_digits(n: int) -> Seq<char> {
    seq![spec_digit(n / 10), spec_digit(n % 10)]
}

fn digit_str(d: u32) -> (r: &'static str)
    requires
        d < 10,
    ensures
        r@ == seq![spec_digit(d as int)],
{
    proof {
        reveal_strlit("0");
        reveal_strlit("1");
        reveal_strlit("2");
        reveal_strlit("3");
        reveal_strlit("4");
        reveal_strlit("5");
        reveal_strlit("6");
        reveal_strlit("7");
        reveal_strlit("8");
        reveal_strlit("9");
    }
    if d == 0 {
        "0"
    } else if d == 1 {
        "1"
    } else if d == 2 {
        "2"
    } else if d == 3 {
        "3"
    } else if d == 4 {
        "4"
    } else if d == 5 {
        "5"
    } else if d == 6 {
        "6"
    } else if d == 7 {
        "7"
    } else if d == 8 {
        "8"
    } else {
        "9"
    }
}

/// Decimal string of `n`, e.g. `87` becomes `"87"`.
pub fn dec_string(n: u32) -> (r: String)
    ensures
        r@ == spec_dec(n as int),
    decreases n,
{
    if n < 10 {
        String::from_str(digit_str(n))
    } else {
        let mut s = dec_string(n / 10);
        s.append(digit_str(n % 10));
        proof {
            assert(s@ =~= spec_dec(n as int));
        }
        s
    }
}

/// Two-digit zero-padded string of `n`, e.g. `7` becomes `"07"`.
pub fn two_digit_string(n: u32) -> (r: String)
    requires
        n < 100,
    ensures
        r@ == spec_two_digits(n as int),
{
    let mut s = String::from_str(digit_str(n / 10));
    s.append(digit_str(n % 10));
    proof {
        assert(s@ =~= spec_two_digits(n as int));
    }
    s
}

/// A wall-clock `HH:MM` string.
pub open spec fn spec_time_string(hour: int, minute: int) -> Seq<char> {
    spec_two_digits(hour) + seq![':'] + spec_two_digits(minute)
}

/// A year zero-padded to at least four digits.
pub open spec fn spec_year4(y: int) -> Seq<char> {
    if y >= 1000 {
        spec_dec(y)
    } else if y >= 100 {
        seq!['0'] + spec_dec(y)
    } else if y >= 10 {
        seq!['0', '0'] + spec_dec(y)
    } else {
        seq!['0', '0', '0'] + spec_dec(y)
    }
}

/// A calendar `MM/DD/YYYY` string.
pub open spec fn spec_date_string(month: int, day: int, year: int) -> Seq<char> {
    spec_two_digits(month) + seq!['/'] + spec_two_digits(day) + seq!['/'] + spec_year4(year)
}

/// Formats the clock as `HH:MM`, e.g. `5` and `3` become `"05:03"`.
pub fn format_time(hour: u32, minute: u32) -> (r: String)
    requires
        hour < 24,
        minute < 60,
    ensures
        r@ == spec_time_string(hour as int, minute as int),
{
    proof {
        reveal_strlit(":");
    }
    let mut s = two_digit_string(hour);
    s.append(":");
    let mm = two_digit_string(minute);
    s.append(mm.as_str());
    proof {
        assert(s@ =~= spec_time_string(hour as int, minute as int));
    }
    s
}

/// Formats the date as `MM/DD/YYYY`, the year zero-padded to at least
/// four digits.
pub fn format_date(month: u32, day: u32, year: u32) -> (r: String)
    requires
        month < 100,
        day < 100,
    ensures
        r@ == spec_date_string(month as int, day as int, year as int),
{
    proof {
        reveal_strlit("/");
        reveal_strlit("0");
        reveal_strlit("00");
        reveal_strlit("000");
    }
    let mut s = two_digit_string(month);
    s.append("/");
    let dd = two_digit_string(day);
    s.append(dd.as_str());
    s.append("/");
    let mut yy: String = if year >= 1000 {
        String::new()
    } else if year >= 100 {
        String::from_str("0")
    } else if year >= 10 {
        String::from_str("00")
    } else {
        String::from_str("000")
    };
    let digits = dec_string(year);
    yy.append(digits.as_str());
    proof {
        assert(yy@ =~= spec_year4(year as int));
    }
    s.append(yy.as_str());
    proof {
        assert(s@ =~= spec_date_string(month as int, day as int, year as int));
    }
    s
}

} // verus!
