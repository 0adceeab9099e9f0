//! Clock-time formatting for slider labels: a minute of the day shown
//! as a two-digit hour, a colon, and a two-digit minute.

use vstd::prelude::*;

verus! {

use vstd::string::StringExecFns;

/// The decimal digit character for a value 0..10.
pub open spec fn spec_digit_char(d: int) -> char {
    if d == 0 {
        '0'
    } else if d == 1 {
        '1'
    } else if d == 2 {
        '2'
    } else if d == 3 {
        '3'
    } else if d == 4 {
        '4'
    } else if d == 5 {
        '5'
    } else if d == 6 {
        '6'
    } else if d == 7 {
        '7'
    } else if d == 8 {
        '8'
    } else {
        '9'
    }
}

/// The five characters `HH:MM` for a minute of the day.
pub open spec fn spec_clock_text(minute_of_day: int) -> Seq<char> {
    seq![
        spec_digit_char(minute_of_day / 60 / 10),
        spec_digit_char(minute_of_day / 60 % 10),
        ':',
        spec_digit_char(minute_of_day % 60 / 10),
        spec_digit_char(minute_of_day % 60 % 10),
    ]
}

/// The single-character text of one decimal digit.
fn digit_str(d: u16) -> (s: &'static str)
    requires
        d < 10,
    ensures
        s@.len() == 1,
        s@[0] == spec_digit_char(d as int),
{
    proof {
        reveal_strlit("0");
        reveal_strlit("1");
        reveal_strlit("2");
        reveal_strlit("3");
        reveal_strlit("4");
        reveal_strlit("5");
        reveal_strlit("6");
        reveal_strlit("7");
        reveal_strlit("8");
        reveal_strlit("9");
    }
    if d == 0 {
        "0"
    } else if d == 1 {
        "1"
    } else if d == 2 {
        "2"
    } else if d == 3 {
        "3"
    } else if d == 4 {
        "4"
    } else if d == 5 {
        "5"
    } else if d == 6 {
        "6"
    } else if d == 7 {
        "7"
    } else if d == 8 {
        "8"
    } else {
        "9"
    }
}

/// Format a minute of the day as `HH:MM`.
pub fn format_time(minute_of_day: u16) -> (s: String)
    requires
        minute_of_day < 1440,
    ensures
        s@ == spec_clock_text(minute_of_day as int),
{
    let h: u16 = minute_of_day / 60;
    let m: u16 = minute_of_day % 60;
    let mut s = String::new();
    s.append(digit_str(h / 10));
    s.append(digit_str(h % 10));
    proof {
        reveal_strlit(":");
    }
    s.append(":");
    s.append(digit_str(m / 10));
    s.append(digit_str(m % 10));
    proof {
        assert(s@ =~= spec_clock_text(minute_of_day as int));
    }
    s
}

} // verus!
