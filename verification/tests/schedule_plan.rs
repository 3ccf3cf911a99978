use race_planner::event_config::EventConfigData;
use race_planner::fuel_stint_schedule::{
    driver_local_stint, parse_actual_end_time, ClockTime, DriverChoice, FuelStintSchedule, FuelStintScheduleMsg,
    ScheduleError, ScheduleRelatedData, ScheduleUpdate,
};
use race_planner::roster::Driver;
use race_planner::schedule::{
    build_schedule, calculate_stint_duration_and_laps, can_build_schedule, can_plan_from, can_replan, replan_schedule,
    ScheduleDataRow, StintType,
};
use race_planner::stint::{FuelStintAverageTimes, OverallFuelStintConfigData, StintData};
use race_planner::time::{Duration, Instant};

const S: i128 = 1_623_499_200 * 1_000_000_000; // 2021-06-12 12:00:00 UTC

fn at(seconds_after_start: i64) -> Instant {
    Instant::from_nanos(S + seconds_after_start as i128 * 1_000_000_000).unwrap()
}

fn stint(lap_seconds: i64, laps: i32, pit: Duration) -> StintData {
    let mut s = StintData::new();
    s.update_lap_time(Duration::seconds(lap_seconds), pit);
    s.update_lap_count(laps, pit);
    s
}

fn times() -> FuelStintAverageTimes {
    let pit = Duration::seconds(60);
    FuelStintAverageTimes {
        standard_fuel_stint: stint(99, 14, pit),
        fuel_saving_stint: stint(100, 15, pit),
    }
}

fn one_hour_race() -> EventConfigData {
    let mut c = EventConfigData::new(at(0));
    c.race_start_tod = at(2 * 3600);
    c.race_duration = Duration::hours(1);
    c.update_race_times();
    c
}

fn fuel_config() -> OverallFuelStintConfigData {
    let mut f = OverallFuelStintConfigData::new();
    f.pit_duration = Duration::seconds(60);
    f.fuel_tank_size = 100;
    f.tire_change_time = Duration::seconds(30);
    f
}

fn driver(id: i32, name: &str, stint_preference: i16) -> Driver {
    let mut d = Driver::new();
    d.id = id;
    d.name = name.to_string();
    d.stint_preference = stint_preference;
    d
}

fn configured_schedule() -> FuelStintSchedule {
    let mut s = FuelStintSchedule::new();
    let data = ScheduleRelatedData {
        overall_event_config: Some(one_hour_race()),
        fuel_stint_times: Some(times()),
        overall_fuel_stint_config: fuel_config(),
        drivers: vec![driver(1, "Alice", 2), driver(2, "Bob", 3)],
    };
    let r = s.update(FuelStintScheduleMsg::OnCreate(None, data));
    assert_eq!(r, Ok(ScheduleUpdate { render: true, row_count_changed: false }));
    s
}

fn ends(rows: &[ScheduleDataRow]) -> Vec<i128> {
    rows.iter().map(|r| (r.utc_end.as_nanos() - S) / 1_000_000_000).collect()
}

#[test]
fn stint_figures_follow_lap_time_and_count() {
    let t = times();
    assert_eq!(t.fuel_saving_stint.track_time, Duration::seconds(1500));
    assert_eq!(t.fuel_saving_stint.track_time_with_pit, Duration::seconds(1560));
    assert_eq!(t.fuel_saving_stint.lap_time_with_pit, Duration::seconds(104));
    assert_eq!(t.standard_fuel_stint.track_time_with_pit, Duration::seconds(1446));
}

#[test]
fn a_full_stint_fits_before_the_end() {
    let t = times();
    let (d, laps) = calculate_stint_duration_and_laps(at(0), StintType::FuelSavingWithTires, &t, at(3600), Duration::seconds(30));
    assert_eq!(d, Duration::seconds(1590));
    assert_eq!(laps, 15);
    let (d, laps) = calculate_stint_duration_and_laps(at(0), StintType::StandardNoTires, &t, at(3600), Duration::seconds(30));
    assert_eq!(d, Duration::seconds(1446));
    assert_eq!(laps, 14);
}

#[test]
fn a_stint_is_cut_short_at_the_end_and_its_laps_rounded_up() {
    let t = times();
    let (d, laps) = calculate_stint_duration_and_laps(at(3150), StintType::FuelSavingWithTires, &t, at(3600), Duration::seconds(30));
    assert_eq!(d, Duration::seconds(450));
    assert_eq!(laps, 5);
    let (d, laps) = calculate_stint_duration_and_laps(at(3500), StintType::StandardWithTires, &t, at(3600), Duration::seconds(30));
    assert_eq!(d, Duration::seconds(100));
    assert_eq!(laps, 2);
}

#[test]
fn the_schedule_runs_from_green_flag_to_the_end() {
    let config = one_hour_race();
    let t = times();
    assert!(can_build_schedule(&config, &t, Duration::seconds(30)));
    let rows = build_schedule(&config, &t, Duration::seconds(30));
    assert_eq!(rows.len(), 3);
    assert_eq!(ends(&rows), vec![1560, 3150, 3600]);
    assert_eq!(rows[0].stint_type, StintType::FuelSavingNoTires);
    assert_eq!(rows[1].stint_type, StintType::FuelSavingWithTires);
    assert_eq!(rows[2].stint_type, StintType::FuelSavingWithTires);
    for (i, row) in rows.iter().enumerate() {
        assert_eq!(row.fuel_stint_number, i as i32 + 1);
        assert_eq!(row.actual_end, row.utc_end);
        assert_eq!(row.tod_end.since(&row.utc_end), Duration::hours(2));
        if i > 0 {
            assert_eq!(row.utc_start, rows[i - 1].utc_end);
        }
    }
    assert_eq!(rows[2].calculated_laps, 5);
    assert_eq!(rows[2].actual_laps, 5);
}

#[test]
fn a_schedule_whose_later_stints_take_no_time_cannot_be_built() {
    let config = one_hour_race();
    let mut t = times();
    t.fuel_saving_stint = StintData::new();
    assert!(!can_build_schedule(&config, &t, Duration::zero()));
}

#[test]
fn replanning_moves_later_stints_to_the_actual_end() {
    let config = one_hour_race();
    let t = times();
    let mut rows = build_schedule(&config, &t, Duration::seconds(30));
    rows[0].actual_end = at(1200);
    let changed = replan_schedule(&mut rows, 0, &config, &t, Duration::seconds(30));
    // 1200 + 1590 = 2790, then 2790 + 1590 passes the end: cut at 3600.
    assert_eq!(ends(&rows), vec![1560, 2790, 3600]);
    assert!(!changed);
    assert_eq!(rows[2].utc_start, at(2790));
    assert_eq!(rows[2].calculated_laps, 9);
    // Time of day follows the actual end with the race's offset.
    assert_eq!(rows[1].tod_start, at(1200 + 7200));
}

#[test]
fn replanning_adds_and_drops_stints() {
    let config = one_hour_race();
    let t = times();
    let mut rows = build_schedule(&config, &t, Duration::seconds(30));
    rows[0].actual_end = at(300);
    assert!(replan_schedule(&mut rows, 0, &config, &t, Duration::seconds(30)));
    assert_eq!(ends(&rows), vec![1560, 1890, 3480, 3600]);
    assert_eq!(rows.iter().map(|r| r.fuel_stint_number).collect::<Vec<_>>(), vec![1, 2, 3, 4]);
    rows[1].actual_end = at(3700);
    assert!(replan_schedule(&mut rows, 1, &config, &t, Duration::seconds(30)));
    assert_eq!(ends(&rows), vec![1560, 1890, 3600]);
    assert_eq!(rows.iter().map(|r| r.fuel_stint_number).collect::<Vec<_>>(), vec![1, 2, 3]);
}

#[test]
fn replanning_needs_progress_only_where_stints_are_added() {
    let config = one_hour_race();
    let mut rows = build_schedule(&config, &times(), Duration::seconds(30));
    rows[1].stint_type = StintType::StandardNoTires;
    rows[2].stint_type = StintType::StandardNoTires;
    // Fuel-saving stints with tire changes now take no time at all.
    let mut t = times();
    t.fuel_saving_stint = StintData::new();
    let r0 = rows[0].clone();
    // From 1200 the standard stints reach the end: nothing has to be added.
    assert!(can_replan(&rows, 0, at(1200), r0.utc_end, r0.tod_end, 1, &config, &t, Duration::zero()));
    // From 300 they fall short, and added stints would make no progress.
    assert!(!can_replan(&rows, 0, at(300), r0.utc_end, r0.tod_end, 1, &config, &t, Duration::zero()));
    rows[0].actual_end = at(1200);
    let changed = replan_schedule(&mut rows, 0, &config, &t, Duration::zero());
    assert!(!changed);
    assert_eq!(ends(&rows), vec![1560, 2646, 3600]);
}

#[test]
fn stints_can_be_planned_only_in_range() {
    let t = times();
    assert!(can_plan_from(at(0), at(0), StintType::StandardNoTires, &t, at(3600), Duration::zero()));
    let last = Instant::from_nanos(8_210_266_876_799_999_999_999).unwrap();
    assert!(!can_plan_from(last, at(0), StintType::StandardNoTires, &t, at(3600), Duration::zero()));
}

#[test]
fn stint_type_names_read_back() {
    for t in [
        StintType::FuelSavingNoTires,
        StintType::FuelSavingWithTires,
        StintType::StandardNoTires,
        StintType::StandardWithTires,
    ] {
        assert_eq!(StintType::from_label(t.label()), Ok(t));
    }
    assert_eq!(StintType::FuelSavingWithTires.label(), "fs w/ tires");
    assert_eq!(StintType::StandardNoTires.label(), "std no tires");
    assert_eq!(
        StintType::from_label("pit only"),
        Err("pit only cannot be mapped to a valid StintType".to_string())
    );
}

#[test]
fn the_screen_draws_up_the_schedule_once_configured() {
    let s = configured_schedule();
    assert_eq!(ends(&s.schedule_rows), vec![1560, 3150, 3600]);
    let mut again = configured_schedule();
    assert_eq!(again.create_schedule(), Ok(false));
}

#[test]
fn the_screen_without_settings_does_nothing() {
    let mut s = FuelStintSchedule::new();
    assert_eq!(s.create_schedule(), Ok(false));
    assert_eq!(
        s.update(FuelStintScheduleMsg::UpdateFuelStintType(StintType::StandardNoTires, 0)),
        Err(ScheduleError::NoSuchRow)
    );
}

#[test]
fn an_empty_race_gets_no_schedule() {
    let mut s = FuelStintSchedule::new();
    let mut config = one_hour_race();
    config.race_duration = Duration::zero();
    config.update_race_times();
    let data = ScheduleRelatedData {
        overall_event_config: Some(config),
        fuel_stint_times: Some(times()),
        overall_fuel_stint_config: fuel_config(),
        drivers: vec![],
    };
    let r = s.update(FuelStintScheduleMsg::OnCreate(None, data));
    assert_eq!(r, Ok(ScheduleUpdate { render: false, row_count_changed: false }));
    assert!(s.schedule_rows.is_empty());
}

#[test]
fn stored_rows_are_planned_again_from_the_green_flag() {
    let mut s = FuelStintSchedule::new();
    let mut stored = build_schedule(&one_hour_race(), &times(), Duration::seconds(30));
    stored[0].utc_start = at(600);
    stored[0].driver_name = "Alice".to_string();
    let data = ScheduleRelatedData {
        overall_event_config: Some(one_hour_race()),
        fuel_stint_times: Some(times()),
        overall_fuel_stint_config: fuel_config(),
        drivers: vec![],
    };
    let r = s.update(FuelStintScheduleMsg::OnCreate(Some(stored), data));
    assert_eq!(r, Ok(ScheduleUpdate { render: true, row_count_changed: false }));
    assert_eq!(s.schedule_rows[0].utc_start, at(0));
    assert_eq!(ends(&s.schedule_rows), vec![1560, 3150, 3600]);
    assert_eq!(s.schedule_rows[0].stint_number, 1);
}

#[test]
fn changing_a_stint_type_replans_the_rest() {
    let mut s = configured_schedule();
    let r = s.update(FuelStintScheduleMsg::UpdateFuelStintType(StintType::StandardNoTires, 1));
    assert_eq!(r, Ok(ScheduleUpdate { render: true, row_count_changed: false }));
    assert_eq!(s.schedule_rows[1].stint_type, StintType::StandardNoTires);
    assert_eq!(s.schedule_rows[1].calculated_laps, 14);
    assert_eq!(ends(&s.schedule_rows), vec![1560, 3006, 3600]);
    assert_eq!(s.schedule_rows[2].calculated_laps, 6);
}

#[test]
fn an_actual_end_records_its_delta() {
    let mut s = configured_schedule();
    let r = s.update(FuelStintScheduleMsg::UpdateActualEndTime(ClockTime { hour: 12, minute: 30, second: 0 }, 0));
    assert_eq!(r, Ok(ScheduleUpdate { render: true, row_count_changed: false }));
    assert_eq!(s.schedule_rows[0].actual_end, at(1800));
    assert_eq!(s.schedule_rows[0].duration_delta, Duration::seconds(240));
    assert_eq!(s.schedule_rows[1].utc_start, at(1800));
    assert_eq!(ends(&s.schedule_rows), vec![1560, 3390, 3600]);
    let bad = s.update(FuelStintScheduleMsg::UpdateActualEndTime(ClockTime { hour: 24, minute: 0, second: 0 }, 0));
    assert_eq!(bad, Err(ScheduleError::OutOfRange));
}

#[test]
fn drivers_are_numbered_while_they_stay_in_the_car() {
    let mut s = configured_schedule();
    let alice = || DriverChoice { value: "Alice".to_string(), index: 1 };
    assert!(s.update(FuelStintScheduleMsg::UpdateDriver(alice(), 0)).is_ok());
    assert_eq!(s.schedule_rows[0].driver_name, "Alice");
    assert_eq!(s.schedule_rows[0].stint_preference, 2);
    assert_eq!(s.schedule_rows[0].stint_number, 1);
    assert!(s.update(FuelStintScheduleMsg::UpdateDriver(alice(), 1)).is_ok());
    assert_eq!(s.schedule_rows[1].stint_number, 2);
    let blank = DriverChoice { value: String::new(), index: 0 };
    assert!(s.update(FuelStintScheduleMsg::UpdateDriver(blank, 1)).is_ok());
    assert_eq!(s.schedule_rows[1].driver_name, "");
    assert_eq!(s.schedule_rows[1].stint_preference, 0);
    assert_eq!(s.schedule_rows[1].stint_number, 1);
}

#[test]
fn driver_choices_outside_the_roster_are_refused() {
    let mut s = configured_schedule();
    let r = s.update(FuelStintScheduleMsg::UpdateDriver(DriverChoice { value: "Eve".to_string(), index: 3 }, 0));
    assert_eq!(r, Err(ScheduleError::NoSuchDriver));
    let r = s.update(FuelStintScheduleMsg::UpdateDriver(DriverChoice { value: "Alice".to_string(), index: 1 }, 7));
    assert_eq!(r, Err(ScheduleError::NoSuchRow));
    assert_eq!(s.schedule_rows[0].driver_name, "");
}

#[test]
fn actual_end_times_are_read_in_four_ways() {
    assert_eq!(parse_actual_end_time("1:30 PM"), Some(ClockTime { hour: 13, minute: 30, second: 0 }));
    assert_eq!(parse_actual_end_time("13:30"), Some(ClockTime { hour: 13, minute: 30, second: 0 }));
    assert_eq!(parse_actual_end_time("13:30:15"), Some(ClockTime { hour: 13, minute: 30, second: 15 }));
    assert_eq!(parse_actual_end_time("1:30:15 AM"), Some(ClockTime { hour: 1, minute: 30, second: 15 }));
    assert_eq!(parse_actual_end_time("soon"), None);
}

#[test]
fn rows_without_settings_cannot_be_edited() {
    let mut s = FuelStintSchedule::new();
    s.schedule_rows = build_schedule(&one_hour_race(), &times(), Duration::seconds(30));
    assert_eq!(
        s.update(FuelStintScheduleMsg::UpdateActualEndTime(ClockTime { hour: 12, minute: 0, second: 0 }, 0)),
        Err(ScheduleError::NotConfigured)
    );
    assert_eq!(s.schedule_rows.len(), 3);
}

#[test]
fn a_stint_shows_in_its_drivers_own_time() {
    let mut alice = driver(1, "Alice", 2);
    alice.utc_offset = -4;
    alice.color = "#ff0000".to_string();
    let mut bob = driver(2, "Bob", 3);
    bob.utc_offset = 9;
    let drivers = Some(vec![alice, bob]);
    let v = driver_local_stint(at(0), at(1560), 1, &drivers);
    assert_eq!(v.local_start, at(-4 * 3600));
    assert_eq!(v.local_end, at(1560 - 4 * 3600));
    assert_eq!(v.driver_color, "#ff0000");
    assert_eq!(v.stint_preference, 2);
    let v = driver_local_stint(at(0), at(1560), 2, &drivers);
    assert_eq!(v.local_start, at(9 * 3600));
    assert_eq!(v.stint_preference, 3);
    let v = driver_local_stint(at(0), at(1560), 7, &drivers);
    assert_eq!(v.local_start, at(0));
    assert_eq!(v.local_end, at(1560));
    assert_eq!(v.driver_color, "");
    assert_eq!(v.stint_preference, 0);
    let v = driver_local_stint(at(0), at(1560), 1, &None);
    assert_eq!(v.local_end, at(1560));
}
