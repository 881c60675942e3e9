//! The daytime reply: a calendar model of the current UTC time and the
//! fixed, human-readable timestamp line sent to every peer, in the style of
//! RFC 2822 (`Thu, 01 Jan 1970 00:00:00 +0000`). Formatting is exact and a
//! parser proves the line is parseable; only reading the clock is delegated
//! to an outside crate.

use chrono::{Datelike, Timelike};
use vstd::prelude::*;

verus! {

/// A leap year of the proleptic Gregorian calendar.
pub open spec fn is_leap_year(y: int) -> bool {
    (y % 4 == 0 && y % 100 != 0) || y % 400 == 0
}

/// Days in the given month of the given year.
pub open spec fn days_in_month(y: int, m: int) -> int {
    if m == 2 {
        if is_leap_year(y) {
            29
        } else {
            28
        }
    } else if m == 4 || m == 6 || m == 9 || m == 11 {
        30
    } else {
        31
    }
}

/// One instant of UTC time, as the calendar fields the timestamp line shows.
#[derive(Clone, Copy, Debug, PartialEq, Eq, Structural)]
pub struct UtcTime {
    /// Day of week, counted from Monday = 0 to Sunday = 6.
    pub weekday: u8,
    /// Year, 1 to 9999 so it always prints as four digits.
    pub year: u16,
    /// Month, 1 to 12.
    pub month: u8,
    /// Day of month, 1 to the month's length.
    pub day: u8,
    /// Hour, 0 to 23.
    pub hour: u8,
    /// Minute, 0 to 59.
    pub minute: u8,
    /// Second, 0 to 59.
    pub second: u8,
}

impl UtcTime {
    /// The fields form a real calendar date and clock reading.
    pub open spec fn wf(self) -> bool {
        &&& self.weekday < 7
        &&& 1 <= self.year <= 9999
        &&& 1 <= self.month <= 12
        &&& 1 <= self.day <= days_in_month(self.year as int, self.month as int)
        &&& self.hour < 24
        &&& self.minute < 60
        &&& self.second < 60
    }
}

/// The epoch instant, Thursday 1970-01-01 00:00:00 UTC: the fallback should
/// the platform clock ever hand back fields outside the calendar.
pub open spec fn epoch() -> UtcTime {
    UtcTime { weekday: 3, year: 1970, month: 1, day: 1, hour: 0, minute: 0, second: 0 }
}

/// The ASCII digit for one decimal value.
pub open spec fn ascii_digit(n: int) -> u8 {
    (48 + n) as u8
}

/// A value below one hundred as two ASCII digits, zero-padded.
pub open spec fn two_digits(n: int) -> Seq<u8> {
    seq![ascii_digit(n / 10), ascii_digit(n % 10)]
}

/// A value below ten thousand as four ASCII digits, zero-padded.
pub open spec fn four_digits(n: int) -> Seq<u8> {
    two_digits(n / 100) + two_digits(n % 100)
}

/// The three-letter English weekday name, Monday = 0 to Sunday = 6.
pub open spec fn weekday_name(w: int) -> Seq<u8> {
    if w == 0 {
        seq![('M' as u8), ('o' as u8), ('n' as u8)]
    } else if w == 1 {
        seq![('T' as u8), ('u' as u8), ('e' as u8)]
    } else if w == 2 {
        seq![('W' as u8), ('e' as u8), ('d' as u8)]
    } else if w == 3 {
        seq![('T' as u8), ('h' as u8), ('u' as u8)]
    } else if w == 4 {
        seq![('F' as u8), ('r' as u8), ('i' as u8)]
    } else if w == 5 {
        seq![('S' as u8), ('a' as u8), ('t' as u8)]
    } else {
        seq![('S' as u8), ('u' as u8), ('n' as u8)]
    }
}

/// The three-letter English month name, January = 1 to December = 12.
pub open spec fn month_name(m: int) -> Seq<u8> {
    if m == 1 {
        seq![('J' as u8), ('a' as u8), ('n' as u8)]
    } else if m == 2 {
        seq![('F' as u8), ('e' as u8), ('b' as u8)]
    } else if m == 3 {
        seq![('M' as u8), ('a' as u8), ('r' as u8)]
    } else if m == 4 {
        seq![('A' as u8), ('p' as u8), ('r' as u8)]
    } else if m == 5 {
        seq![('M' as u8), ('a' as u8), ('y' as u8)]
    } else if m == 6 {
        seq![('J' as u8), ('u' as u8), ('n' as u8)]
    } else if m == 7 {
        seq![('J' as u8), ('u' as u8), ('l' as u8)]
    } else if m == 8 {
        seq![('A' as u8), ('u' as u8), ('g' as u8)]
    } else if m == 9 {
        seq![('S' as u8), ('e' as u8), ('p' as u8)]
    } else if m == 10 {
        seq![('O' as u8), ('c' as u8), ('t' as u8)]
    } else if m == 11 {
        seq![('N' as u8), ('o' as u8), ('v' as u8)]
    } else {
        seq![('D' as u8), ('e' as u8), ('c' as u8)]
    }
}

/// The timestamp line for one instant: thirty-one bytes of ASCII in the
/// shape `Thu, 01 Jan 1970 00:00:00 +0000`, the offset always UTC.
pub open spec fn daytime_bytes(t: UtcTime) -> Seq<u8> {
    weekday_name(t.weekday as int) + seq![(',' as u8), (' ' as u8)] + two_digits(t.day as int) + seq![(' ' as u8)]
        + month_name(t.month as int) + seq![(' ' as u8)] + four_digits(t.year as int) + seq![(' ' as u8)]
        + two_digits(t.hour as int) + seq![(':' as u8)] + two_digits(t.minute as int) + seq![(':' as u8)]
        + two_digits(t.second as int) + seq![(' ' as u8), ('+' as u8), ('0' as u8), ('0' as u8), ('0' as u8), ('0' as u8)]
}

/// Append a value below one hundred as two zero-padded ASCII digits.
fn push_two_digits(v: &mut Vec<u8>, n: u8)
    requires
        n < 100,
    ensures
        final(v)@ =~= old(v)@ + two_digits(n as int),
{
    v.push(48 + n / 10);
    v.push(48 + n % 10);
}

/// Append a value below ten thousand as four zero-padded ASCII digits.
fn push_four_digits(v: &mut Vec<u8>, n: u16)
    requires
        n < 10000,
    ensures
        final(v)@ =~= old(v)@ + four_digits(n as int),
{
    push_two_digits(v, (n / 100) as u8);
    push_two_digits(v, (n % 100) as u8);
}

/// The three letters of the weekday name, Monday = 0 to Sunday = 6.
fn weekday_letters(w: u8) -> (r: (u8, u8, u8))
    requires
        w < 7,
    ensures
        seq![r.0, r.1, r.2] =~= weekday_name(w as int),
{
    match w {
        0 => (('M' as u8), ('o' as u8), ('n' as u8)),
        1 => (('T' as u8), ('u' as u8), ('e' as u8)),
        2 => (('W' as u8), ('e' as u8), ('d' as u8)),
        3 => (('T' as u8), ('h' as u8), ('u' as u8)),
        4 => (('F' as u8), ('r' as u8), ('i' as u8)),
        5 => (('S' as u8), ('a' as u8), ('t' as u8)),
        _ => (('S' as u8), ('u' as u8), ('n' as u8)),
    }
}

/// The three letters of the month name, January = 1 to December = 12.
fn month_letters(m: u8) -> (r: (u8, u8, u8))
    requires
        1 <= m <= 12,
    ensures
        seq![r.0, r.1, r.2] =~= month_name(m as int),
{
    match m {
        1 => (('J' as u8), ('a' as u8), ('n' as u8)),
        2 => (('F' as u8), ('e' as u8), ('b' as u8)),
        3 => (('M' as u8), ('a' as u8), ('r' as u8)),
        4 => (('A' as u8), ('p' as u8), ('r' as u8)),
        5 => (('M' as u8), ('a' as u8), ('y' as u8)),
        6 => (('J' as u8), ('u' as u8), ('n' as u8)),
        7 => (('J' as u8), ('u' as u8), ('l' as u8)),
        8 => (('A' as u8), ('u' as u8), ('g' as u8)),
        9 => (('S' as u8), ('e' as u8), ('p' as u8)),
        10 => (('O' as u8), ('c' as u8), ('t' as u8)),
        11 => (('N' as u8), ('o' as u8), ('v' as u8)),
        _ => (('D' as u8), ('e' as u8), ('c' as u8)),
    }
}

/// Format the timestamp line for one instant: exactly the thirty-one bytes
/// of `daytime_bytes`, never empty.
pub fn daytime_line(t: &UtcTime) -> (r: Vec<u8>)
    requires
        t.wf(),
    ensures
        r@ == daytime_bytes(*t),
        r@.len() == 31,
{
    let mut v: Vec<u8> = Vec::new();
    let w = weekday_letters(t.weekday);
    v.push(w.0);
    v.push(w.1);
    v.push(w.2);
    v.push((',' as u8));
    v.push((' ' as u8));
    push_two_digits(&mut v, t.day);
    v.push((' ' as u8));
    let m = month_letters(t.month);
    v.push(m.0);
    v.push(m.1);
    v.push(m.2);
    v.push((' ' as u8));
    push_four_digits(&mut v, t.year);
    v.push((' ' as u8));
    push_two_digits(&mut v, t.hour);
    v.push((':' as u8));
    push_two_digits(&mut v, t.minute);
    v.push((':' as u8));
    push_two_digits(&mut v, t.second);
    v.push((' ' as u8));
    v.push(('+' as u8));
    v.push(('0' as u8));
    v.push(('0' as u8));
    v.push(('0' as u8));
    v.push(('0' as u8));
    proof {
        assert(v@ =~= daytime_bytes(*t));
    }
    v
}

/// Days in the month, executable form.
pub fn month_length(year: u16, month: u8) -> (r: u8)
    requires
        1 <= month <= 12,
    ensures
        r as int == days_in_month(year as int, month as int),
{
    if month == 2 {
        if (year % 4 == 0 && year % 100 != 0) || year % 400 == 0 {
            29
        } else {
            28
        }
    } else if month == 4 || month == 6 || month == 9 || month == 11 {
        30
    } else {
        31
    }
}

impl UtcTime {
    /// Whether the fields form a real calendar date and clock reading.
    pub fn check_wf(&self) -> (r: bool)
        ensures
            r == self.wf(),
    {
        self.weekday < 7 && 1 <= self.year && self.year <= 9999 && 1 <= self.month && self.month
            <= 12 && 1 <= self.day && self.day <= month_length(self.year, self.month) && self.hour
            < 24 && self.minute < 60 && self.second < 60
    }
}

/// Whether the byte is an ASCII decimal digit.
pub open spec fn is_digit_byte(b: u8) -> bool {
    48 <= b <= 57
}

/// The value two ASCII digit bytes spell.
pub open spec fn two_digit_value(a: u8, b: u8) -> int {
    (a - 48) * 10 + (b - 48)
}

/// The weekday index whose name the three bytes spell, or -1 if none.
pub open spec fn weekday_of_name(a: u8, b: u8, c: u8) -> int {
    if a == 'M' as u8 && b == 'o' as u8 && c == 'n' as u8 {
        0
    } else if a == 'T' as u8 && b == 'u' as u8 && c == 'e' as u8 {
        1
    } else if a == 'W' as u8 && b == 'e' as u8 && c == 'd' as u8 {
        2
    } else if a == 'T' as u8 && b == 'h' as u8 && c == 'u' as u8 {
        3
    } else if a == 'F' as u8 && b == 'r' as u8 && c == 'i' as u8 {
        4
    } else if a == 'S' as u8 && b == 'a' as u8 && c == 't' as u8 {
        5
    } else if a == 'S' as u8 && b == 'u' as u8 && c == 'n' as u8 {
        6
    } else {
        -1
    }
}

/// The month number whose name the three bytes spell, or -1 if none.
pub open spec fn month_of_name(a: u8, b: u8, c: u8) -> int {
    if a == 'J' as u8 && b == 'a' as u8 && c == 'n' as u8 {
        1
    } else if a == 'F' as u8 && b == 'e' as u8 && c == 'b' as u8 {
        2
    } else if a == 'M' as u8 && b == 'a' as u8 && c == 'r' as u8 {
        3
    } else if a == 'A' as u8 && b == 'p' as u8 && c == 'r' as u8 {
        4
    } else if a == 'M' as u8 && b == 'a' as u8 && c == 'y' as u8 {
        5
    } else if a == 'J' as u8 && b == 'u' as u8 && c == 'n' as u8 {
        6
    } else if a == 'J' as u8 && b == 'u' as u8 && c == 'l' as u8 {
        7
    } else if a == 'A' as u8 && b == 'u' as u8 && c == 'g' as u8 {
        8
    } else if a == 'S' as u8 && b == 'e' as u8 && c == 'p' as u8 {
        9
    } else if a == 'O' as u8 && b == 'c' as u8 && c == 't' as u8 {
        10
    } else if a == 'N' as u8 && b == 'o' as u8 && c == 'v' as u8 {
        11
    } else if a == 'D' as u8 && b == 'e' as u8 && c == 'c' as u8 {
        12
    } else {
        -1
    }
}

/// Whether the thirty-one bytes have the shape of a timestamp line: names
/// in their places, digits in theirs, and the fixed punctuation and UTC
/// offset between them.
pub open spec fn daytime_shaped(s: Seq<u8>) -> bool {
    &&& s.len() == 31
    &&& weekday_of_name(s[0], s[1], s[2]) >= 0
    &&& s[3] == ',' as u8
    &&& s[4] == ' ' as u8
    &&& is_digit_byte(s[5])
    &&& is_digit_byte(s[6])
    &&& s[7] == ' ' as u8
    &&& month_of_name(s[8], s[9], s[10]) >= 0
    &&& s[11] == ' ' as u8
    &&& is_digit_byte(s[12])
    &&& is_digit_byte(s[13])
    &&& is_digit_byte(s[14])
    &&& is_digit_byte(s[15])
    &&& s[16] == ' ' as u8
    &&& is_digit_byte(s[17])
    &&& is_digit_byte(s[18])
    &&& s[19] == ':' as u8
    &&& is_digit_byte(s[20])
    &&& is_digit_byte(s[21])
    &&& s[22] == ':' as u8
    &&& is_digit_byte(s[23])
    &&& is_digit_byte(s[24])
    &&& s[25] == ' ' as u8
    &&& s[26] == '+' as u8
    &&& s[27] == '0' as u8
    &&& s[28] == '0' as u8
    &&& s[29] == '0' as u8
    &&& s[30] == '0' as u8
}

/// The instant a shaped line spells, before the calendar check.
pub open spec fn daytime_fields(s: Seq<u8>) -> UtcTime {
    UtcTime {
        weekday: weekday_of_name(s[0], s[1], s[2]) as u8,
        year: (two_digit_value(s[12], s[13]) * 100 + two_digit_value(s[14], s[15])) as u16,
        month: month_of_name(s[8], s[9], s[10]) as u8,
        day: two_digit_value(s[5], s[6]) as u8,
        hour: two_digit_value(s[17], s[18]) as u8,
        minute: two_digit_value(s[20], s[21]) as u8,
        second: two_digit_value(s[23], s[24]) as u8,
    }
}

/// What a candidate line parses to: the well-formed instant whose timestamp
/// line it is, if it is one.
pub open spec fn parse_daytime_spec(s: Seq<u8>) -> Option<UtcTime> {
    if daytime_shaped(s) && daytime_fields(s).wf() {
        Some(daytime_fields(s))
    } else {
        None
    }
}

/// The weekday index whose name the three bytes spell.
fn weekday_index(a: u8, b: u8, c: u8) -> (r: Option<u8>)
    ensures
        weekday_of_name(a, b, c) >= 0 ==> r == Some(weekday_of_name(a, b, c) as u8),
        weekday_of_name(a, b, c) < 0 ==> r is None,
{
    if a == 'M' as u8 && b == 'o' as u8 && c == 'n' as u8 {
        Some(0)
    } else if a == 'T' as u8 && b == 'u' as u8 && c == 'e' as u8 {
        Some(1)
    } else if a == 'W' as u8 && b == 'e' as u8 && c == 'd' as u8 {
        Some(2)
    } else if a == 'T' as u8 && b == 'h' as u8 && c == 'u' as u8 {
        Some(3)
    } else if a == 'F' as u8 && b == 'r' as u8 && c == 'i' as u8 {
        Some(4)
    } else if a == 'S' as u8 && b == 'a' as u8 && c == 't' as u8 {
        Some(5)
    } else if a == 'S' as u8 && b == 'u' as u8 && c == 'n' as u8 {
        Some(6)
    } else {
        None
    }
}

/// The month number whose name the three bytes spell.
fn month_index(a: u8, b: u8, c: u8) -> (r: Option<u8>)
    ensures
        month_of_name(a, b, c) >= 0 ==> r == Some(month_of_name(a, b, c) as u8),
        month_of_name(a, b, c) < 0 ==> r is None,
{
    if a == 'J' as u8 && b == 'a' as u8 && c == 'n' as u8 {
        Some(1)
    } else if a == 'F' as u8 && b == 'e' as u8 && c == 'b' as u8 {
        Some(2)
    } else if a == 'M' as u8 && b == 'a' as u8 && c == 'r' as u8 {
        Some(3)
    } else if a == 'A' as u8 && b == 'p' as u8 && c == 'r' as u8 {
        Some(4)
    } else if a == 'M' as u8 && b == 'a' as u8 && c == 'y' as u8 {
        Some(5)
    } else if a == 'J' as u8 && b == 'u' as u8 && c == 'n' as u8 {
        Some(6)
    } else if a == 'J' as u8 && b == 'u' as u8 && c == 'l' as u8 {
        Some(7)
    } else if a == 'A' as u8 && b == 'u' as u8 && c == 'g' as u8 {
        Some(8)
    } else if a == 'S' as u8 && b == 'e' as u8 && c == 'p' as u8 {
        Some(9)
    } else if a == 'O' as u8 && b == 'c' as u8 && c == 't' as u8 {
        Some(10)
    } else if a == 'N' as u8 && b == 'o' as u8 && c == 'v' as u8 {
        Some(11)
    } else if a == 'D' as u8 && b == 'e' as u8 && c == 'c' as u8 {
        Some(12)
    } else {
        None
    }
}

/// The value of two ASCII digit bytes, or `None` if either is no digit.
fn read_two_digits(a: u8, b: u8) -> (r: Option<u8>)
    ensures
        is_digit_byte(a) && is_digit_byte(b) ==> r == Some(two_digit_value(a, b) as u8),
        !(is_digit_byte(a) && is_digit_byte(b)) ==> r is None,
{
    if 48 <= a && a <= 57 && 48 <= b && b <= 57 {
        Some((a - 48) * 10 + (b - 48))
    } else {
        None
    }
}

/// Parse a candidate daytime line: the well-formed instant whose timestamp
/// line the bytes are, `None` for every other byte string.
pub fn parse_daytime_line(v: &Vec<u8>) -> (r: Option<UtcTime>)
    ensures
        r == parse_daytime_spec(v@),
{
    if v.len() != 31 {
        return None;
    }
    let weekday = match weekday_index(v[0], v[1], v[2]) {
        Some(w) => w,
        None => { return None; },
    };
    if !(v[3] == ',' as u8 && v[4] == ' ' as u8) {
        return None;
    }
    let day = match read_two_digits(v[5], v[6]) {
        Some(d) => d,
        None => { return None; },
    };
    if v[7] != ' ' as u8 {
        return None;
    }
    let month = match month_index(v[8], v[9], v[10]) {
        Some(m) => m,
        None => { return None; },
    };
    if v[11] != ' ' as u8 {
        return None;
    }
    let year_hi = match read_two_digits(v[12], v[13]) {
        Some(y) => y,
        None => { return None; },
    };
    let year_lo = match read_two_digits(v[14], v[15]) {
        Some(y) => y,
        None => { return None; },
    };
    if v[16] != ' ' as u8 {
        return None;
    }
    let hour = match read_two_digits(v[17], v[18]) {
        Some(h) => h,
        None => { return None; },
    };
    if v[19] != ':' as u8 {
        return None;
    }
    let minute = match read_two_digits(v[20], v[21]) {
        Some(m) => m,
        None => { return None; },
    };
    if v[22] != ':' as u8 {
        return None;
    }
    let second = match read_two_digits(v[23], v[24]) {
        Some(s) => s,
        None => { return None; },
    };
    if !(v[25] == ' ' as u8 && v[26] == '+' as u8 && v[27] == '0' as u8 && v[28] == '0' as u8
        && v[29] == '0' as u8 && v[30] == '0' as u8) {
        return None;
    }
    let t = UtcTime {
        weekday,
        year: year_hi as u16 * 100 + year_lo as u16,
        month,
        day,
        hour,
        minute,
        second,
    };
    if t.check_wf() {
        Some(t)
    } else {
        None
    }
}

/// The timestamp line written out byte by byte: the flattening of its
/// concatenated pieces.
proof fn lemma_daytime_bytes_flat(t: UtcTime)
    requires
        t.wf(),
    ensures
        daytime_bytes(t) =~= flat_daytime_bytes(t),
{
}

/// The thirty-one bytes of the timestamp line, spelled out one by one.
spec fn flat_daytime_bytes(t: UtcTime) -> Seq<u8> {
    let w = t.weekday as int;
    let mo = t.month as int;
    let d = t.day as int;
    let y = t.year as int;
    let h = t.hour as int;
    let mi = t.minute as int;
    let sec = t.second as int;
    seq![
        weekday_name(w)[0],
        weekday_name(w)[1],
        weekday_name(w)[2],
        ',' as u8,
        ' ' as u8,
        ascii_digit(d / 10),
        ascii_digit(d % 10),
        ' ' as u8,
        month_name(mo)[0],
        month_name(mo)[1],
        month_name(mo)[2],
        ' ' as u8,
        ascii_digit(y / 100 / 10),
        ascii_digit(y / 100 % 10),
        ascii_digit(y % 100 / 10),
        ascii_digit(y % 100 % 10),
        ' ' as u8,
        ascii_digit(h / 10),
        ascii_digit(h % 10),
        ':' as u8,
        ascii_digit(mi / 10),
        ascii_digit(mi % 10),
        ':' as u8,
        ascii_digit(sec / 10),
        ascii_digit(sec % 10),
        ' ' as u8,
        '+' as u8,
        '0' as u8,
        '0' as u8,
        '0' as u8,
        '0' as u8,
    ]
}

/// Law: every timestamp line is a non-empty, parseable timestamp string,
/// and parses back to exactly the instant it was formatted from.
pub proof fn lemma_daytime_line_round_trip(t: UtcTime)
    requires
        t.wf(),
    ensures
        daytime_bytes(t).len() == 31,
        parse_daytime_spec(daytime_bytes(t)) == Some(t),
{
    lemma_daytime_bytes_flat(t);
    let s = daytime_bytes(t);
    let w = t.weekday as int;
    let mo = t.month as int;
    let d = t.day as int;
    let y = t.year as int;
    let h = t.hour as int;
    let mi = t.minute as int;
    let sec = t.second as int;
    assert(weekday_of_name(s[0], s[1], s[2]) == w);
    assert(month_of_name(s[8], s[9], s[10]) == mo);
    assert(two_digit_value(s[5], s[6]) == d);
    assert(two_digit_value(s[17], s[18]) == h);
    assert(two_digit_value(s[20], s[21]) == mi);
    assert(two_digit_value(s[23], s[24]) == sec);
    assert(two_digit_value(s[12], s[13]) == y / 100);
    assert(two_digit_value(s[14], s[15]) == y % 100);
    assert(y / 100 * 100 + y % 100 == y);
    assert(daytime_shaped(s));
    assert(daytime_fields(s) == t);
}

/// Two ASCII digit bytes spell their own value: printing the value they
/// spell gives back exactly the two bytes.
proof fn lemma_two_digits_of_value(a: u8, b: u8)
    requires
        is_digit_byte(a),
        is_digit_byte(b),
    ensures
        0 <= two_digit_value(a, b) < 100,
        two_digit_value(a, b) / 10 == a - 48,
        two_digit_value(a, b) % 10 == b - 48,
        two_digits(two_digit_value(a, b)) =~= seq![a, b],
{
}

/// Law: the timestamp line is stable — a candidate that parses at all is,
/// byte for byte, the line formatted for the instant it parses to, so each
/// instant has exactly one line and each line spells one instant.
pub proof fn lemma_parse_is_exact(s: Seq<u8>, t: UtcTime)
    requires
        parse_daytime_spec(s) == Some(t),
    ensures
        t.wf(),
        s == daytime_bytes(t),
{
    assert(daytime_shaped(s));
    assert(t == daytime_fields(s));
    lemma_daytime_bytes_flat(t);
    let w = weekday_of_name(s[0], s[1], s[2]);
    assert(weekday_name(w) =~= seq![s[0], s[1], s[2]]);
    let mo = month_of_name(s[8], s[9], s[10]);
    assert(month_name(mo) =~= seq![s[8], s[9], s[10]]);
    lemma_two_digits_of_value(s[5], s[6]);
    lemma_two_digits_of_value(s[17], s[18]);
    lemma_two_digits_of_value(s[20], s[21]);
    lemma_two_digits_of_value(s[23], s[24]);
    lemma_two_digits_of_value(s[12], s[13]);
    lemma_two_digits_of_value(s[14], s[15]);
    let hi = two_digit_value(s[12], s[13]);
    let lo = two_digit_value(s[14], s[15]);
    let y = t.year as int;
    assert(y == hi * 100 + lo);
    assert(y / 100 == hi && y % 100 == lo) by (nonlinear_arith)
        requires
            0 <= hi < 100,
            0 <= lo < 100,
            y == hi * 100 + lo,
    ;
    assert(s =~= daytime_bytes(t));
}

/// Whether raw clock fields lie in the calendar ranges the timestamp line
/// can show.
pub open spec fn clock_fields_in_range(
    year: int,
    month: int,
    day: int,
    hour: int,
    minute: int,
    second: int,
    weekday: int,
) -> bool {
    &&& 1 <= year <= 9999
    &&& 1 <= month <= 12
    &&& 1 <= day <= days_in_month(year, month)
    &&& 0 <= hour < 24
    &&& 0 <= minute < 60
    &&& 0 <= second < 60
    &&& 0 <= weekday < 7
}

/// Build a validated timestamp from raw clock fields: in-range fields give
/// exactly those fields; any other reading falls back to the epoch instant,
/// so the result is always well-formed.
pub fn from_clock_fields(
    year: i32,
    month: u8,
    day: u8,
    hour: u8,
    minute: u8,
    second: u8,
    weekday: u8,
) -> (r: UtcTime)
    ensures
        r.wf(),
        clock_fields_in_range(
            year as int,
            month as int,
            day as int,
            hour as int,
            minute as int,
            second as int,
            weekday as int,
        ) ==> r == (UtcTime { weekday, year: year as u16, month, day, hour, minute, second }),
        !clock_fields_in_range(
            year as int,
            month as int,
            day as int,
            hour as int,
            minute as int,
            second as int,
            weekday as int,
        ) ==> r == epoch(),
{
    if 1 <= year && year <= 9999 && 1 <= month && month <= 12 && 1 <= day && hour < 24 && minute
        < 60 && second < 60 && weekday < 7 {
        if day <= month_length(year as u16, month) {
            return UtcTime { weekday, year: year as u16, month, day, hour, minute, second };
        }
    }
    UtcTime { weekday: 3, year: 1970, month: 1, day: 1, hour: 0, minute: 0, second: 0 }
}

/// Relies on `chrono::Utc::now` and its `Datelike`/`Timelike` accessors for
/// the current instant of UTC: the returned month, day-of-month, hour,
/// minute, second and Monday-based weekday lie in their calendar ranges.
#[verifier::external_body]
fn now_parts() -> (r: (i32, u8, u8, u8, u8, u8, u8))
    ensures
        1 <= r.1 <= 12,
        1 <= r.2 <= days_in_month(r.0 as int, r.1 as int),
        r.3 < 24,
        r.4 < 60,
        r.5 < 60,
        r.6 < 7,
{
    let now = chrono::Utc::now();
    (
        now.year(),
        now.month() as u8,
        now.day() as u8,
        now.hour() as u8,
        now.minute() as u8,
        now.second() as u8,
        now.weekday().num_days_from_monday() as u8,
    )
}

/// The current instant of UTC as a well-formed timestamp (the epoch instant
/// in the impossible case that the platform clock leaves the calendar).
pub fn current_time() -> (r: UtcTime)
    ensures
        r.wf(),
{
    let p = now_parts();
    from_clock_fields(p.0, p.1, p.2, p.3, p.4, p.5, p.6)
}

/// The reply owed for one work item: the current time as a timestamp line.
/// Always the thirty-one bytes of a well-formed instant's line, so by the
/// round-trip law every reply is non-empty and parseable.
pub fn daytime_reply() -> (r: Vec<u8>)
    ensures
        exists|t: UtcTime| t.wf() && r@ == #[trigger] daytime_bytes(t),
        r@.len() == 31,
{
    let t = current_time();
    let line = daytime_line(&t);
    proof {
        assert(t.wf() && line@ == daytime_bytes(t));
    }
    line
}

} // verus!
