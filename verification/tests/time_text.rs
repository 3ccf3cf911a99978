use race_planner::duration_text::{format_duration, parse_duration_from_str, DurationFormat, DurationParseError};
use race_planner::text::{parse_i32, parse_i64, same_text};
use race_planner::time::{Duration, Instant};

#[test]
fn duration_units_count_in_nanoseconds() {
    assert_eq!(Duration::milliseconds(1500).as_nanos(), 1_500_000_000);
    assert_eq!(Duration::seconds(2).as_nanos(), 2_000_000_000);
    assert_eq!(Duration::minutes(3).as_nanos(), 180_000_000_000);
    assert_eq!(Duration::hours(1).as_nanos(), 3_600_000_000_000);
    assert_eq!(Duration::zero().as_nanos(), 0);
}

#[test]
fn duration_whole_units_round_toward_zero() {
    let d = Duration::milliseconds(-90_500);
    assert_eq!(d.num_milliseconds(), -90_500);
    assert_eq!(d.num_seconds(), -90);
    assert_eq!(d.num_minutes(), -1);
    assert_eq!(d.num_hours(), 0);
    let e = Duration::milliseconds(7_325_999);
    assert_eq!(e.num_seconds(), 7325);
    assert_eq!(e.num_minutes(), 122);
    assert_eq!(e.num_hours(), 2);
}

#[test]
fn duration_arithmetic() {
    let a = Duration::seconds(90);
    let b = Duration::seconds(30);
    assert_eq!(a.add(&b), Duration::minutes(2));
    assert_eq!(a.sub(&b), Duration::minutes(1));
    assert_eq!(b.sub(&a), Duration::minutes(-1));
    assert_eq!(a.mul(3), Duration::milliseconds(270_000));
    assert_eq!(Duration::seconds(7).div(2), Duration::milliseconds(3500));
    assert_eq!(Duration::seconds(-7).div(2), Duration::milliseconds(-3500));
    assert_eq!(Duration::seconds(1).div(3).as_nanos(), 333_333_333);
}

#[test]
fn duration_range_is_checked() {
    assert!(Duration::from_nanos(9_223_372_036_854_775_807_000_000).is_some());
    assert!(Duration::from_nanos(9_223_372_036_854_775_807_000_001).is_none());
    assert!(Duration::from_nanos(-9_223_372_036_854_775_807_000_001).is_none());
}

#[test]
fn instants_move_by_durations() {
    let t = Instant::from_nanos(1_000_000_000_000).unwrap();
    let later = t.add(&Duration::seconds(60));
    assert_eq!(later.as_nanos(), 1_060_000_000_000);
    assert_eq!(later.since(&t), Duration::minutes(1));
    assert_eq!(t.since(&later), Duration::minutes(-1));
    assert!(Instant::from_nanos(8_210_266_876_799_999_999_999).is_some());
    assert!(Instant::from_nanos(8_210_266_876_800_000_000_000).is_none());
    assert!(Instant::from_nanos(-8_334_601_228_800_000_000_000).is_some());
    assert!(Instant::from_nanos(-8_334_601_228_800_000_000_001).is_none());
}

#[test]
fn with_time_of_day_keeps_the_day_and_fraction() {
    // 1970-01-02 05:06:07.25
    let t = Instant::from_nanos(((86_400 + 5 * 3600 + 6 * 60 + 7) as i128) * 1_000_000_000 + 250_000_000).unwrap();
    let moved = t.with_time_of_day(13, 30, 0);
    assert_eq!(moved.as_nanos(), ((86_400 + 13 * 3600 + 30 * 60) as i128) * 1_000_000_000 + 250_000_000);
    // Before the epoch: 1969-12-31 23:00:00 keeps its day.
    let before = Instant::from_nanos(-3600 * 1_000_000_000).unwrap();
    assert_eq!(before.with_time_of_day(1, 0, 0).as_nanos(), (-86_400 + 3600) as i128 * 1_000_000_000);
}

#[test]
fn format_hours_minutes_seconds() {
    assert_eq!(format_duration(Duration::hours(10), DurationFormat::HourMinSec), "10:00:00");
    assert_eq!(format_duration(Duration::milliseconds(3_723_999), DurationFormat::HourMinSec), "01:02:03");
    assert_eq!(format_duration(Duration::hours(123), DurationFormat::HourMinSec), "123:00:00");
    assert_eq!(format_duration(Duration::seconds(-61), DurationFormat::HourMinSec), "-00:01:01");
    assert_eq!(format_duration(Duration::zero(), DurationFormat::HourMinSec), "00:00:00");
}

#[test]
fn format_minutes_seconds_milliseconds() {
    assert_eq!(format_duration(Duration::milliseconds(76_200), DurationFormat::MinSecMilli), "01:16.200");
    assert_eq!(format_duration(Duration::milliseconds(5), DurationFormat::MinSecMilli), "00:00.005");
    assert_eq!(format_duration(Duration::milliseconds(-90_500), DurationFormat::MinSecMilli), "-01:30.500");
    // Hours are not shown in a lap time.
    assert_eq!(format_duration(Duration::milliseconds(3_661_001), DurationFormat::MinSecMilli), "01:01.001");
}

#[test]
fn hour_min_sec_reads_back_what_it_writes() {
    let d = Duration::seconds(5 * 3600 + 7 * 60 + 9);
    let text = format_duration(d, DurationFormat::HourMinSec);
    assert_eq!(text, "05:07:09");
    assert_eq!(parse_duration_from_str(&text, DurationFormat::HourMinSec), Ok(d));
}

#[test]
fn hour_min_sec_errors() {
    assert_eq!(
        parse_duration_from_str("1:2:3:4", DurationFormat::HourMinSec),
        Err(DurationParseError::Unparseable)
    );
    assert_eq!(parse_duration_from_str("ab", DurationFormat::HourMinSec), Err(DurationParseError::Malformed));
    assert_eq!(parse_duration_from_str("", DurationFormat::HourMinSec), Err(DurationParseError::Malformed));
    assert_eq!(
        parse_duration_from_str("9223372036854775807", DurationFormat::HourMinSec),
        Err(DurationParseError::Malformed)
    );
    assert_eq!(parse_duration_from_str("-1:30", DurationFormat::HourMinSec), Ok(Duration::seconds(-30)));
}

#[test]
fn lap_times_read_through_the_pattern() {
    assert_eq!(
        parse_duration_from_str("1:16.2", DurationFormat::MinSecMilli),
        Ok(Duration::milliseconds(76_200))
    );
    assert_eq!(
        parse_duration_from_str("1:16.25", DurationFormat::MinSecMilli),
        Ok(Duration::milliseconds(76_250))
    );
    assert_eq!(
        parse_duration_from_str("1:16.250", DurationFormat::MinSecMilli),
        Ok(Duration::milliseconds(76_250))
    );
    assert_eq!(
        parse_duration_from_str("01:16.050", DurationFormat::MinSecMilli),
        Ok(Duration::milliseconds(76_500))
    );
    for shown in ["01:16.150", "00:59.999", "12:00.000", "00:00.100"] {
        let lap = parse_duration_from_str(shown, DurationFormat::MinSecMilli).unwrap();
        assert_eq!(format_duration(lap, DurationFormat::MinSecMilli), shown);
    }
    assert_eq!(
        parse_duration_from_str("00:00.005", DurationFormat::MinSecMilli),
        Ok(Duration::milliseconds(500))
    );
    assert_eq!(
        parse_duration_from_str("1:16.1234", DurationFormat::MinSecMilli),
        Ok(Duration::milliseconds(77_234))
    );
    assert_eq!(parse_duration_from_str("95", DurationFormat::MinSecMilli), Ok(Duration::seconds(95)));
    assert_eq!(
        parse_duration_from_str("lap", DurationFormat::MinSecMilli),
        Err(DurationParseError::Unparseable)
    );
}

#[test]
fn parse_errors_have_messages() {
    assert_eq!(DurationParseError::Unparseable.message(), "the duration could not be parsed");
    assert!(!DurationParseError::Malformed.message().is_empty());
}

#[test]
fn integers_read_as_std_reads_them() {
    let chars = |s: &str| s.chars().collect::<Vec<char>>();
    assert_eq!(parse_i64(&chars("42")), Some(42));
    assert_eq!(parse_i64(&chars("+7")), Some(7));
    assert_eq!(parse_i64(&chars("-9223372036854775808")), Some(i64::MIN));
    assert_eq!(parse_i64(&chars("9223372036854775808")), None);
    assert_eq!(parse_i64(&chars("")), None);
    assert_eq!(parse_i64(&chars("-")), None);
    assert_eq!(parse_i64(&chars("1a")), None);
    assert_eq!(parse_i32("2147483647"), Some(i32::MAX));
    assert_eq!(parse_i32("2147483648"), None);
    assert_eq!(parse_i32("-15"), Some(-15));
    assert_eq!(parse_i32(" 1"), None);
}

#[test]
fn same_text_compares_every_character() {
    assert!(same_text("fs no tires", "fs no tires"));
    assert!(!same_text("fs no tires", "fs no tire"));
    assert!(!same_text("abc", "abd"));
    assert!(same_text("", ""));
}
