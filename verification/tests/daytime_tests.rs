use daytime::daytime::{
    daytime_line, daytime_reply, from_clock_fields, month_length, parse_daytime_line, UtcTime,
};

fn epoch_time() -> UtcTime {
    UtcTime { weekday: 3, year: 1970, month: 1, day: 1, hour: 0, minute: 0, second: 0 }
}

#[test]
fn epoch_formats_exactly() {
    let line = daytime_line(&epoch_time());
    assert_eq!(line, "Thu, 01 Jan 1970 00:00:00 +0000".as_bytes().to_vec());
}

#[test]
fn leap_day_formats_exactly() {
    // 2000-02-29 was a Tuesday; 2000 is a leap year (divisible by 400).
    let t = UtcTime { weekday: 1, year: 2000, month: 2, day: 29, hour: 23, minute: 59, second: 59 };
    let line = daytime_line(&t);
    assert_eq!(line, "Tue, 29 Feb 2000 23:59:59 +0000".as_bytes().to_vec());
}

#[test]
fn line_parses_back_to_the_same_instant() {
    let t = UtcTime { weekday: 6, year: 2021, month: 12, day: 5, hour: 9, minute: 30, second: 7 };
    assert_eq!(parse_daytime_line(&daytime_line(&t)), Some(t));
    let t = epoch_time();
    assert_eq!(parse_daytime_line(&daytime_line(&t)), Some(t));
    let t = UtcTime { weekday: 0, year: 9999, month: 12, day: 31, hour: 23, minute: 59, second: 59 };
    assert_eq!(parse_daytime_line(&daytime_line(&t)), Some(t));
}

#[test]
fn parse_rejects_malformed_lines() {
    assert_eq!(parse_daytime_line(&Vec::new()), None);
    assert_eq!(parse_daytime_line(&"Thu, 01 Jan 1970 00:00:00".as_bytes().to_vec()), None);
    assert_eq!(parse_daytime_line(&"Xyz, 01 Jan 1970 00:00:00 +0000".as_bytes().to_vec()), None);
    assert_eq!(parse_daytime_line(&"Thu, 01 Foo 1970 00:00:00 +0000".as_bytes().to_vec()), None);
    assert_eq!(parse_daytime_line(&"Thu, 0x Jan 1970 00:00:00 +0000".as_bytes().to_vec()), None);
    assert_eq!(parse_daytime_line(&"Thu; 01 Jan 1970 00:00:00 +0000".as_bytes().to_vec()), None);
    assert_eq!(parse_daytime_line(&"Thu, 01 Jan 1970 00:00:00 +0100".as_bytes().to_vec()), None);
}

#[test]
fn parse_rejects_impossible_dates() {
    // Shaped like a timestamp, but no such calendar day.
    assert_eq!(parse_daytime_line(&"Wed, 30 Feb 2001 00:00:00 +0000".as_bytes().to_vec()), None);
    assert_eq!(parse_daytime_line(&"Mon, 29 Feb 1900 00:00:00 +0000".as_bytes().to_vec()), None);
    assert_eq!(parse_daytime_line(&"Mon, 00 Jan 2001 00:00:00 +0000".as_bytes().to_vec()), None);
    assert_eq!(parse_daytime_line(&"Mon, 01 Jan 2001 24:00:00 +0000".as_bytes().to_vec()), None);
}

#[test]
fn month_lengths_follow_the_calendar() {
    assert_eq!(month_length(2001, 1), 31);
    assert_eq!(month_length(2001, 2), 28);
    assert_eq!(month_length(2000, 2), 29);
    assert_eq!(month_length(1900, 2), 28);
    assert_eq!(month_length(2024, 2), 29);
    assert_eq!(month_length(2001, 4), 30);
    assert_eq!(month_length(2001, 12), 31);
}

#[test]
fn clock_fields_in_range_are_kept() {
    let t = from_clock_fields(2021, 6, 15, 12, 34, 56, 1);
    let expect = UtcTime { weekday: 1, year: 2021, month: 6, day: 15, hour: 12, minute: 34, second: 56 };
    assert_eq!(t, expect);
}

#[test]
fn clock_fields_out_of_range_fall_back_to_epoch() {
    assert_eq!(from_clock_fields(2021, 13, 1, 0, 0, 0, 0), epoch_time());
    assert_eq!(from_clock_fields(2021, 2, 30, 0, 0, 0, 0), epoch_time());
    assert_eq!(from_clock_fields(0, 1, 1, 0, 0, 0, 0), epoch_time());
    assert_eq!(from_clock_fields(10000, 1, 1, 0, 0, 0, 0), epoch_time());
    assert_eq!(from_clock_fields(2021, 1, 1, 24, 0, 0, 0), epoch_time());
    assert_eq!(from_clock_fields(2021, 1, 1, 0, 0, 0, 7), epoch_time());
}

#[test]
fn reply_is_a_parseable_current_timestamp() {
    // Goes through the platform clock: whatever it returns, the reply must
    // be a well-formed, parseable timestamp line.
    let reply = daytime_reply();
    assert_eq!(reply.len(), 31);
    let parsed = parse_daytime_line(&reply).expect("reply must parse");
    assert!(parsed.check_wf());
    assert!(parsed.year >= 2000);
}
