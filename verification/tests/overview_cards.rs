use race_planner::duration_text::{DurationFormat, DurationParseError};
use race_planner::event_config::{
    format_clock_time, format_date_time, parse_date_time, race_times_fit, EventConfig, EventConfigData, EventConfigError, EventConfigMsg,
};
use race_planner::fuel_stint_config::{FuelConfigUpdate, FuelStintConfigError, OverallFuelStintConfig, OverallFuelStintMessage};
use race_planner::fuel_stint_times::{
    fuel_saving_lap_time, FuelStintTimes, FuelStintTimesError, FuelStintTimesMsg, StintType,
};
use race_planner::lap_factors::{
    Factor, LapFactorError, PerDriverLapFactors, TimeOfDay, PerDriverLapFactorsMsg, TimeOfDayLapFactors, TimeOfDayLapFactorsMsg,
};
use race_planner::roster::Driver;
use race_planner::stint::{stint_fits, FuelStintAverageTimes, OverallFuelStintConfigData, StintData};
use race_planner::time::{Duration, Instant};

const NOON: i128 = 1_623_499_200 * 1_000_000_000; // 2021-06-12 12:00:00 UTC

#[test]
fn date_times_are_written_and_read() {
    let t = Instant::from_nanos(NOON + 3600 * 1_000_000_000).unwrap();
    assert_eq!(format_date_time(t), "2021-06-12 13:00:00");
    assert_eq!(parse_date_time("2021-06-12 13:00:00"), Some(t));
    assert_eq!(parse_date_time("12/06/2021"), None);
    let before_epoch = Instant::from_nanos(-1_500_000_000).unwrap();
    assert_eq!(format_date_time(before_epoch), "1969-12-31 23:59:58");
}

#[test]
fn race_times_follow_from_session_offset_and_duration() {
    let now = Instant::from_nanos(NOON).unwrap();
    let mut card = EventConfig { data: EventConfigData::new(now), plan_id: 7 };
    assert_eq!(card.update(EventConfigMsg::ChangeGreenFlagOffset("00:10:00".to_string())), Ok(true));
    assert_eq!(card.update(EventConfigMsg::ChangeRaceDuration("24:00:00".to_string())), Ok(false));
    assert_eq!(card.update(EventConfigMsg::ChangeRaceStartToD("2021-06-12 08:00:00".to_string())), Ok(false));
    let d = card.data;
    assert_eq!(d.race_start_utc.since(&now), Duration::minutes(10));
    assert_eq!(d.race_end_utc.since(&d.race_start_utc), Duration::hours(24));
    assert_eq!(d.race_end_tod.since(&d.race_start_tod), Duration::hours(24));
    assert_eq!(d.tod_offset, d.race_start_tod.since(&d.race_start_utc));
    assert_eq!(format_date_time(d.race_start_tod), "2021-06-12 08:00:00");
    assert!(race_times_fit(&d));
    assert_eq!(card.plan_id, 7);
}

#[test]
fn event_config_edits_that_cannot_be_read_change_nothing() {
    let now = Instant::from_nanos(NOON).unwrap();
    let mut card = EventConfig { data: EventConfigData::new(now), plan_id: 1 };
    let before = card.data;
    assert_eq!(
        card.update(EventConfigMsg::ChangeRaceDuration("a day".to_string())),
        Err(EventConfigError::Duration(DurationParseError::Malformed))
    );
    assert_eq!(
        card.update(EventConfigMsg::ChangeSessionStart("tomorrow".to_string())),
        Err(EventConfigError::DateTime)
    );
    assert_eq!(card.data, before);
    let late = Instant::from_nanos(8_210_266_876_799_999_999_999).unwrap();
    let mut edge = EventConfig { data: EventConfigData::new(late), plan_id: 1 };
    assert_eq!(
        edge.update(EventConfigMsg::ChangeRaceDuration("01:00:00".to_string())),
        Err(EventConfigError::OutOfRange)
    );
    let stored = EventConfigData::new(now);
    assert_eq!(card.update(EventConfigMsg::OnCreate(9, stored)), Ok(false));
    assert_eq!(card.plan_id, 9);
}

#[test]
fn stint_figures_must_fit() {
    assert!(stint_fits(Duration::seconds(90), 10, Duration::seconds(60)));
    assert!(!stint_fits(Duration::milliseconds(i64::MAX), 2, Duration::zero()));
    let mut s = StintData::new();
    s.update_lap_time(Duration::seconds(90), Duration::seconds(60));
    s.update_lap_count(10, Duration::seconds(60));
    assert_eq!(s.lap_time_with_pit, Duration::seconds(96));
    assert_eq!(s.track_time, Duration::seconds(900));
    assert_eq!(s.track_time_with_pit, Duration::seconds(960));
    s.update(12, Duration::seconds(30));
    assert_eq!(s.lap_count, 12);
    assert_eq!(s.lap_time_with_pit, Duration::milliseconds(92_500));
    assert_eq!(s.track_time_with_pit, Duration::seconds(1110));
    let none = StintData::new();
    assert_eq!(none.lap_time_with_pit, Duration::zero());
}

#[test]
fn the_fuel_saving_lap_is_one_percent_slower() {
    assert_eq!(fuel_saving_lap_time(Duration::seconds(90)), Some(Duration::milliseconds(90_900)));
    assert_eq!(fuel_saving_lap_time(Duration::milliseconds(76_543)), Some(Duration::milliseconds(77_308)));
    assert_eq!(fuel_saving_lap_time(Duration::milliseconds(-1_000)), Some(Duration::milliseconds(-1_010)));
    assert_eq!(fuel_saving_lap_time(Duration::milliseconds(i64::MAX)), Some(Duration::milliseconds(i64::MAX)));
    assert_eq!(fuel_saving_lap_time(Duration::milliseconds(-i64::MAX)), None);
}

#[test]
fn a_standard_lap_time_sets_both_stints() {
    let pit = Duration::seconds(60);
    let mut card = FuelStintTimes::new();
    assert_eq!(card.update(FuelStintTimesMsg::UpdateLapCount(10, StintType::Standard), pit), Ok(true));
    assert_eq!(card.update(FuelStintTimesMsg::UpdateLapCount(11, StintType::FuelSaving), pit), Ok(true));
    assert_eq!(card.update(FuelStintTimesMsg::UpdateLapTime("1:30.000".to_string(), StintType::Standard), pit), Ok(true));
    assert_eq!(card.standard_fuel_stint.lap_time, Duration::seconds(90));
    assert_eq!(card.standard_fuel_stint.track_time_with_pit, Duration::seconds(960));
    assert_eq!(card.fuel_saving_stint.lap_time, Duration::milliseconds(90_900));
    assert_eq!(card.fuel_saving_stint.track_time, Duration::milliseconds(999_900));
    assert_eq!(card.update(FuelStintTimesMsg::UpdateLapTime("1:35".to_string(), StintType::FuelSaving), pit), Ok(true));
    assert_eq!(card.fuel_saving_stint.lap_time, Duration::seconds(95));
    assert_eq!(card.standard_fuel_stint.lap_time, Duration::seconds(90));
}

#[test]
fn fuel_stint_edits_that_cannot_be_taken() {
    let pit = Duration::seconds(60);
    let mut card = FuelStintTimes::new();
    let before = card;
    assert_eq!(
        card.update(FuelStintTimesMsg::UpdateLapTime("fast".to_string(), StintType::Standard), pit),
        Err(FuelStintTimesError::LapTime(DurationParseError::Unparseable))
    );
    assert_eq!(card, before);
    assert_eq!(card.update(FuelStintTimesMsg::UpdateLapTime("1:00".to_string(), StintType::Standard), pit), Ok(true));
    let settled = card;
    let huge = Duration::milliseconds(i64::MAX);
    assert_eq!(card.update(FuelStintTimesMsg::UpdateLapCount(2, StintType::Standard), huge), Err(FuelStintTimesError::OutOfRange));
    assert_eq!(card, settled);
    let stored = FuelStintAverageTimes { standard_fuel_stint: StintData::new(), fuel_saving_stint: StintData::new() };
    assert_eq!(card.update(FuelStintTimesMsg::OnCreate(stored), pit), Ok(true));
}

#[test]
fn new_settings_work_both_stints_out_again() {
    let pit = Duration::seconds(60);
    let mut card = FuelStintTimes::new();
    card.update(FuelStintTimesMsg::UpdateLapTime("1:40".to_string(), StintType::Standard), pit).unwrap();
    assert!(card.changed(20, 22, Duration::seconds(40)));
    assert_eq!(card.standard_fuel_stint.lap_count, 20);
    assert_eq!(card.standard_fuel_stint.track_time_with_pit, Duration::seconds(2040));
    assert_eq!(card.fuel_saving_stint.lap_count, 22);
    assert_eq!(card.fuel_saving_stint.lap_time_with_pit, Duration::from_nanos(102_818_181_818).unwrap());
}

#[test]
fn fuel_settings_are_read_from_text() {
    let mut card = OverallFuelStintConfig::new(OverallFuelStintConfigData::new());
    let taken = FuelConfigUpdate { render: true, publish: true, save: false };
    assert_eq!(card.update(OverallFuelStintMessage::UpdatePitDuration("0:45.5".to_string())), Ok(taken));
    assert_eq!(card.data.pit_duration, Duration::milliseconds(45_500));
    assert_eq!(card.update(OverallFuelStintMessage::UpdateFuelTankSize("110".to_string())), Ok(taken));
    assert_eq!(card.data.fuel_tank_size, 110);
    assert_eq!(card.update(OverallFuelStintMessage::UpdateTireChangeTime("25".to_string())), Ok(taken));
    assert_eq!(card.data.tire_change_time, Duration::seconds(25));
    assert_eq!(
        card.update(OverallFuelStintMessage::UpdateAddTireTime(true)),
        Ok(FuelConfigUpdate { render: false, publish: true, save: true })
    );
    assert!(card.data.add_tire_time);
    assert_eq!(
        card.update(OverallFuelStintMessage::UpdateFuelTankSize("lots".to_string())),
        Err(FuelStintConfigError::FuelTankSize)
    );
    assert_eq!(
        card.update(OverallFuelStintMessage::UpdatePitDuration("slow".to_string())),
        Err(FuelStintConfigError::Duration(DurationParseError::Unparseable))
    );
    assert_eq!(card.data.fuel_tank_size, 110);
    let fresh = OverallFuelStintConfigData::new();
    assert_eq!(
        card.update(OverallFuelStintMessage::OnCreate(fresh)),
        Ok(FuelConfigUpdate { render: true, publish: false, save: false })
    );
    assert_eq!(card.data, fresh);
}

#[test]
fn time_of_day_factors_start_at_the_reference() {
    let table = TimeOfDayLapFactors::create(Duration::seconds(90));
    assert_eq!(table.factors.len(), 5);
    let names: Vec<&str> = table.factors.iter().map(|f| f.time_of_day.as_str()).collect();
    assert_eq!(names, vec!["Night1", "Morning", "Afternoon", "Evening", "Night2"]);
    assert_eq!(table.factors[2].tod_start.seconds_from_midnight, 11 * 3600);
    assert!(table.factors.iter().all(|f| f.factor == Factor::one() && f.lap_time == Duration::seconds(90)));
}

#[test]
fn time_of_day_edits() {
    let mut table = TimeOfDayLapFactors::create(Duration::seconds(90));
    assert_eq!(table.update(TimeOfDayLapFactorsMsg::UpdateLapTime("1:31.000".to_string(), 1)), Ok(true));
    let f = &table.factors[1];
    assert_eq!(f.lap_time, Duration::seconds(91));
    assert_eq!(f.delta, Duration::seconds(1));
    assert_eq!(f.factor, Factor { numerator: 91_000, denominator: 90_000 });
    assert!(f.has_edited_lap_time);
    assert_eq!(table.update(TimeOfDayLapFactorsMsg::UpdateTimeOfDay("Dawn".to_string(), 1)), Ok(false));
    assert_eq!(table.factors[1].time_of_day, "Dawn");
    assert_eq!(table.update(TimeOfDayLapFactorsMsg::UpdateTimeOfDayStart("04:30 AM".to_string(), 1)), Ok(true));
    assert_eq!(table.factors[1].tod_start.seconds_from_midnight, 4 * 3600 + 30 * 60);
    assert_eq!(
        table.update(TimeOfDayLapFactorsMsg::UpdateTimeOfDayStart("dawn".to_string(), 1)),
        Err(LapFactorError::TimeOfDayStart)
    );
    assert_eq!(
        table.update(TimeOfDayLapFactorsMsg::UpdateLapTime("later".to_string(), 1)),
        Err(LapFactorError::LapTime(DurationParseError::Unparseable))
    );
    table.changed(Duration::seconds(100));
    assert_eq!(table.factors[1].lap_time, Duration::seconds(91));
    assert_eq!(table.factors[1].delta, Duration::seconds(-9));
    assert_eq!(table.factors[0].lap_time, Duration::seconds(100));
    assert_eq!(table.factors[0].factor, Factor { numerator: 100_000, denominator: 100_000 });
    assert_eq!(table.update(TimeOfDayLapFactorsMsg::ResetLapTimeToReference(1)), Ok(true));
    assert_eq!(table.factors[1].lap_time, Duration::seconds(100));
    assert_eq!(table.factors[1].factor, Factor::one());
    assert!(!table.factors[1].has_edited_lap_time);
}

fn named(name: &str, color: &str) -> Driver {
    let mut d = Driver::new();
    d.name = name.to_string();
    d.color = color.to_string();
    d
}

#[test]
fn driver_factors_against_the_standard_lap() {
    let drivers = vec![named("Alice", "#FF0000"), named("Bob", "#00FF00")];
    let mut table = PerDriverLapFactors::create(&drivers, Duration::seconds(100));
    assert_eq!(table.factors.len(), 2);
    assert_eq!(table.factors[1].driver_name, "Bob");
    assert_eq!(table.factors[1].factor, Factor::one());
    assert_eq!(table.update_driver_lap_time("1:42.000".to_string(), 0), Ok(true));
    assert_eq!(table.factors[0].lap_time, Duration::seconds(102));
    assert_eq!(table.factors[0].factor, Factor { numerator: 102_000, denominator: 100_000 });
    assert_eq!(
        table.update_driver_lap_time("quick".to_string(), 0),
        Err(LapFactorError::LapTime(DurationParseError::Unparseable))
    );
    assert!(table.changed(Duration::seconds(120)));
    assert_eq!(table.factors[0].factor, Factor { numerator: 102_000, denominator: 120_000 });
    assert!(table.load_drivers(&vec![named("Cy", "#0000FF")]));
    assert_eq!(table.factors.len(), 1);
    assert_eq!(table.factors[0].driver_color, "#0000FF");
}

#[test]
fn duration_format_values_are_distinct() {
    assert_ne!(DurationFormat::HourMinSec, DurationFormat::MinSecMilli);
}

#[test]
fn driver_factor_edits_by_message() {
    let mut table = PerDriverLapFactors::create(&vec![], Duration::seconds(100));
    assert_eq!(table.update(PerDriverLapFactorsMsg::LoadDrivers(vec![named("Ida", "#111111")])), Ok(true));
    assert_eq!(table.factors.len(), 1);
    assert_eq!(table.update(PerDriverLapFactorsMsg::UpdateDriverLapTime("1:38".to_string(), 0)), Ok(true));
    assert_eq!(table.factors[0].factor, Factor { numerator: 98_000, denominator: 100_000 });
}

#[test]
fn clock_times_are_written_on_a_twelve_hour_clock() {
    let t = Instant::from_nanos(NOON + (3600 + 5 * 60) * 1_000_000_000).unwrap();
    assert_eq!(format_clock_time(t), " 1:05 PM");
    assert_eq!(format_clock_time(Instant::from_nanos(NOON - 12 * 3600 * 1_000_000_000).unwrap()), "12:00 AM");
    assert_eq!(TimeOfDay::from_hms(4, 30, 0).format(), Some("04:30 AM".to_string()));
    assert_eq!(TimeOfDay::from_hms(21, 0, 0).format(), Some("09:00 PM".to_string()));
    assert_eq!(TimeOfDay { seconds_from_midnight: 90_000, nanosecond: 0 }.format(), None);
}
