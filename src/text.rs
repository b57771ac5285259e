use vstd::prelude::*;
use vstd::string::*;
use crate::localtime::{chrono_parse_time, chrono_time_of_day};

verus! {

/// The decimal digit character for `d` in `0 .. 10`.
pub open spec fn digit_char(d: int) -> char {
    if d == 0 {
        '0'
    } else if d == 1 {
        '1'
    } else if d == 2 {
        '2'
    } else if d == 3 {
        '3'
    } else if d == 4 {
        '4'
    } else if d == 5 {
        '5'
    } else if d == 6 {
        '6'
    } else if d == 7 {
        '7'
    } else if d == 8 {
        '8'
    } else {
        '9'
    }
}

/// The value of a decimal digit character, or `None` for any other character.
pub open spec fn digit_value(c: char) -> Option<int> {
    if c == '0' {
        Some(0)
    } else if c == '1' {
        Some(1)
    } else if c == '2' {
        Some(2)
    } else if c == '3' {
        Some(3)
    } else if c == '4' {
        Some(4)
    } else if c == '5' {
        Some(5)
    } else if c == '6' {
        Some(6)
    } else if c == '7' {
        Some(7)
    } else if c == '8' {
        Some(8)
    } else if c == '9' {
        Some(9)
    } else {
        None
    }
}

/// Zero-padded 24-hour "HH:MM" text of a minute of the day.
pub open spec fn hhmm_text(minute: int) -> Seq<char> {
    let h = minute / 60;
    let m = minute % 60;
    seq![digit_char(h / 10), digit_char(h % 10), ':', digit_char(m / 10), digit_char(m % 10)]
}

/// The two-digit number spelled by `a` then `b`, if both are digits.
pub open spec fn two_digits(a: char, b: char) -> Option<int> {
    match (digit_value(a), digit_value(b)) {
        (Some(x), Some(y)) => Some(10 * x + y),
        _ => None,
    }
}

/// The minute of the day that strict "HH:MM" text names: exactly two digits
/// of hour below 24, a colon, and two digits of minute below 60.
pub open spec fn parse_hhmm_spec(s: Seq<char>) -> Option<int> {
    if s.len() != 5 || s[2] != ':' {
        None
    } else {
        match (two_digits(s[0], s[1]), two_digits(s[3], s[4])) {
            (Some(h), Some(m)) => if h < 24 && m < 60 {
                Some(h * 60 + m)
            } else {
                None
            },
            _ => None,
        }
    }
}

/// Parsed "HH:MM" text always names a minute of the day.
pub proof fn lemma_parse_hhmm_bound(s: Seq<char>)
    ensures
        parse_hhmm_spec(s) matches Some(k) ==> 0 <= k < 1440,
{
    if s.len() == 5 && s[2] == ':' {
        if let (Some(h), Some(m)) = (two_digits(s[0], s[1]), two_digits(s[3], s[4])) {
            assert(h >= 0 && m >= 0);
        }
    }
}

proof fn lemma_digit_round_trip(d: int)
    requires
        0 <= d < 10,
    ensures
        digit_value(digit_char(d)) == Some(d),
{
}

/// Formatting a minute of the day as "HH:MM" and parsing the text back
/// gives the same minute.
pub proof fn lemma_hhmm_round_trip(minute: int)
    requires
        0 <= minute < 1440,
    ensures
        parse_hhmm_spec(hhmm_text(minute)) == Some(minute),
{
    let h = minute / 60;
    let m = minute % 60;
    assert(0 <= h < 24);
    assert(0 <= m < 60);
    lemma_digit_round_trip(h / 10);
    lemma_digit_round_trip(h % 10);
    lemma_digit_round_trip(m / 10);
    lemma_digit_round_trip(m % 10);
    assert(10 * (h / 10) + h % 10 == h);
    assert(10 * (m / 10) + m % 10 == m);
    assert(h * 60 + m == minute);
}

fn digit_str(d: u32) -> (r: &'static str)
    requires
        d < 10,
    ensures
        r@ == seq![digit_char(d as int)],
{
    if d == 0 {
        proof { reveal_strlit("0"); }
        "0"
    } else if d == 1 {
        proof { reveal_strlit("1"); }
        "1"
    } else if d == 2 {
        proof { reveal_strlit("2"); }
        "2"
    } else if d == 3 {
        proof { reveal_strlit("3"); }
        "3"
    } else if d == 4 {
        proof { reveal_strlit("4"); }
        "4"
    } else if d == 5 {
        proof { reveal_strlit("5"); }
        "5"
    } else if d == 6 {
        proof { reveal_strlit("6"); }
        "6"
    } else if d == 7 {
        proof { reveal_strlit("7"); }
        "7"
    } else if d == 8 {
        proof { reveal_strlit("8"); }
        "8"
    } else {
        proof { reveal_strlit("9"); }
        "9"
    }
}

/// Zero-padded 24-hour "HH:MM" text of a minute of the day.
pub fn format_hhmm(minute: u32) -> (r: String)
    requires
        minute < 1440,
    ensures
        r@ == hhmm_text(minute as int),
{
    let h: u32 = minute / 60;
    let m: u32 = minute % 60;
    let mut s = String::from_str(digit_str(h / 10));
    s.append(digit_str(h % 10));
    proof { reveal_strlit(":"); }
    s.append(":");
    s.append(digit_str(m / 10));
    s.append(digit_str(m % 10));
    assert(s@ =~= hhmm_text(minute as int));
    s
}

/// The minute of the day that chrono reads from `"%H:%M"` text.
pub open spec fn time_of_day_minute(s: Seq<char>) -> Option<int> {
    match chrono_time_of_day(s) {
        Some(p) => Some(60 * p.0 + p.1),
        None => None,
    }
}

/// Reads a local time of day as chrono's `"%H:%M"` format does, giving the
/// minute of the day; strict "HH:MM" text gives the minute it spells.
pub fn parse_time_of_day(s: &str) -> (r: Option<u32>)
    ensures
        r matches Some(v) ==> time_of_day_minute(s@) == Some(v as int) && v < 1440,
        r is None <==> time_of_day_minute(s@) is None,
        parse_hhmm_spec(s@) matches Some(k) ==> r == Some(k as u32),
{
    proof {
        lemma_parse_hhmm_bound(s@);
    }
    match chrono_parse_time(s) {
        Some((h, m)) => Some(60 * h + m),
        None => None,
    }
}

} // verus!
