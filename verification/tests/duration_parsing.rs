use race_planner::duration_text::{parse_duration_from_str, DurationFormat};
use race_planner::time::Duration;

#[test]
fn main_should_parse_as_hours_minutes_seconds_with_three_parts() {
    let ten_hours_str = "10:00:00";
    let parsed = parse_duration_from_str(ten_hours_str, DurationFormat::HourMinSec);

    assert!(parsed.is_ok());
    assert_eq!(Duration::hours(10), parsed.unwrap());
}

#[test]
fn main_should_parse_as_minutes_seconds_with_only_two_parts() {
    let ten_minutes_str = "10:00";
    let parsed = parse_duration_from_str(ten_minutes_str, DurationFormat::HourMinSec);

    assert!(parsed.is_ok());
    assert_eq!(Duration::minutes(10), parsed.unwrap());
}

#[test]
fn main_should_parse_as_seconds_with_only_one_part() {
    // As hours, minutes and seconds.
    let ten_seconds_str = "10";
    let parsed = parse_duration_from_str(ten_seconds_str, DurationFormat::HourMinSec);

    assert!(parsed.is_ok());
    assert_eq!(Duration::seconds(10), parsed.unwrap());

    // As a lap time.
    let value = "16";
    let parsed = parse_duration_from_str(value, DurationFormat::MinSecMilli);

    assert!(parsed.is_ok());
    assert_eq!(0, parsed.unwrap().num_minutes());
    assert_eq!(16, parsed.unwrap().num_seconds() % 60);
    assert_eq!(0, parsed.unwrap().num_milliseconds() % 1000);
}

#[test]
fn main_should_parse_as_min_sec_milli_with_three_parts() {
    let value = "1:16.2";
    let parsed = parse_duration_from_str(value, DurationFormat::MinSecMilli);

    assert!(parsed.is_ok());
    assert_eq!(1, parsed.unwrap().num_minutes());
    assert_eq!(16, parsed.unwrap().num_seconds() % 60);
    assert_eq!(200, parsed.unwrap().num_milliseconds() % 1000);
}

#[test]
fn main_should_parse_as_min_sec_with_no_milliseconds_present() {
    let value = "1:16";
    let parsed = parse_duration_from_str(value, DurationFormat::MinSecMilli);

    assert!(parsed.is_ok());
    assert_eq!(1, parsed.unwrap().num_minutes());
    assert_eq!(16, parsed.unwrap().num_seconds() % 60);
    assert_eq!(0, parsed.unwrap().num_milliseconds() % 1000);
}

#[test]
fn main_should_parse_as_sec_milli_with_milliseconds_present() {
    let value = "16.200";
    let parsed = parse_duration_from_str(value, DurationFormat::MinSecMilli);

    assert!(parsed.is_ok());
    assert_eq!(0, parsed.unwrap().num_minutes());
    assert_eq!(16, parsed.unwrap().num_seconds() % 60);
    assert_eq!(200, parsed.unwrap().num_milliseconds() % 1000);
}


#[test]
fn planner_should_parse_as_hours_minutes_seconds_with_three_parts() {
    let ten_hours_str = "10:00:00";
    let parsed = parse_duration_from_str(ten_hours_str, DurationFormat::HourMinSec);

    assert!(parsed.is_ok());
    assert_eq!(Duration::hours(10), parsed.unwrap());
}

#[test]
fn planner_should_parse_as_minutes_seconds_with_only_two_parts() {
    let ten_minutes_str = "10:00";
    let parsed = parse_duration_from_str(ten_minutes_str, DurationFormat::HourMinSec);

    assert!(parsed.is_ok());
    assert_eq!(Duration::minutes(10), parsed.unwrap());
}

#[test]
fn planner_should_parse_as_seconds_with_only_one_part() {
    // As hours, minutes and seconds.
    let ten_seconds_str = "10";
    let parsed = parse_duration_from_str(ten_seconds_str, DurationFormat::HourMinSec);

    assert!(parsed.is_ok());
    assert_eq!(Duration::seconds(10), parsed.unwrap());

    // As a lap time.
    let value = "16";
    let parsed = parse_duration_from_str(value, DurationFormat::MinSecMilli);

    assert!(parsed.is_ok());
    assert_eq!(0, parsed.unwrap().num_minutes());
    assert_eq!(16, parsed.unwrap().num_seconds() % 60);
    assert_eq!(0, parsed.unwrap().num_milliseconds() % 1000);
}

#[test]
fn planner_should_parse_as_min_sec_milli_with_three_parts() {
    let value = "1:16.2";
    let parsed = parse_duration_from_str(value, DurationFormat::MinSecMilli);

    assert!(parsed.is_ok());
    assert_eq!(1, parsed.unwrap().num_minutes());
    assert_eq!(16, parsed.unwrap().num_seconds() % 60);
    assert_eq!(200, parsed.unwrap().num_milliseconds() % 1000);
}

#[test]
fn planner_should_parse_as_min_sec_with_no_milliseconds_present() {
    let value = "1:16";
    let parsed = parse_duration_from_str(value, DurationFormat::MinSecMilli);

    assert!(parsed.is_ok());
    assert_eq!(1, parsed.unwrap().num_minutes());
    assert_eq!(16, parsed.unwrap().num_seconds() % 60);
    assert_eq!(0, parsed.unwrap().num_milliseconds() % 1000);
}

#[test]
fn planner_should_parse_as_sec_milli_with_milliseconds_present() {
    let value = "16.200";
    let parsed = parse_duration_from_str(value, DurationFormat::MinSecMilli);

    assert!(parsed.is_ok());
    assert_eq!(0, parsed.unwrap().num_minutes());
    assert_eq!(16, parsed.unwrap().num_seconds() % 60);
    assert_eq!(200, parsed.unwrap().num_milliseconds() % 1000);
}
