//! The schedule screen's state: the stints of the race and the settings
//! they are planned from, and the edits that the screen makes to them.

use crate::event_config::{EventConfigData, CLOCK_TIME_FORMAT};
use crate::lap_factors::{parse_time_of_day, time_of_day_text_value};
use crate::roster::Driver;
use crate::schedule::{
    build_schedule, calculate_stint_duration_and_laps, can_build_schedule, can_plan_from, can_replan,
    is_built_schedule, is_replanned_schedule, lemma_built_schedule_is_contiguous,
    lemma_replannable_with, lemma_replanned_facts, lemma_replanned_schedule_is_numbered, numbered,
    planned_laps, planned_stint_nanos, plannable_from, replan_schedule, replannable_with, replanned,
    schedule_plannable, ScheduleDataRow, StintType,
};
use crate::stint::{FuelStintAverageTimes, OverallFuelStintConfigData};
use crate::time::{instant_in_range, with_time_of_day_nanos, Duration, Instant, NANOS_PER_HOUR};
use vstd::prelude::*;

verus! {

/// What the schedule is planned from, as the planner hands it over.
pub struct ScheduleRelatedData {
    pub overall_event_config: Option<EventConfigData>,
    pub fuel_stint_times: Option<FuelStintAverageTimes>,
    pub overall_fuel_stint_config: OverallFuelStintConfigData,
    pub drivers: Vec<Driver>,
}

/// Why an edit of the schedule was not taken.
#[derive(Clone, Copy, Debug, PartialEq, Eq, Structural)]
pub enum ScheduleError {
    /// There is no row at the given position.
    NoSuchRow,
    /// The race, the average stints or the fuel settings are not known yet.
    NotConfigured,
    /// The chosen driver is not in the roster.
    NoSuchDriver,
    /// The replanned stints would fall outside the representable range, or
    /// a count would run past `i32::MAX`.
    OutOfRange,
}

/// The schedule screen's state.
pub struct FuelStintSchedule {
    pub schedule_rows: Vec<ScheduleDataRow>,
    pub overall_event_config: Option<EventConfigData>,
    pub fuel_stint_times: Option<FuelStintAverageTimes>,
    pub overall_fuel_stint_config: Option<OverallFuelStintConfigData>,
    pub drivers: Option<Vec<Driver>>,
}

/// `next` holds the same settings and drivers as `s`.
pub open spec fn same_settings(s: FuelStintSchedule, next: FuelStintSchedule) -> bool {
    &&& next.overall_event_config == s.overall_event_config
    &&& next.fuel_stint_times == s.fuel_stint_times
    &&& next.overall_fuel_stint_config == s.overall_fuel_stint_config
    &&& next.drivers == s.drivers
}

/// The race, the average stints and the fuel settings are all known.
pub open spec fn configured(s: FuelStintSchedule) -> bool {
    &&& s.overall_event_config is Some
    &&& s.fuel_stint_times is Some
    &&& s.overall_fuel_stint_config is Some
}

/// No schedule can be drawn up: the race takes no time, or the standard
/// stint does not.
pub open spec fn nothing_to_plan(config: EventConfigData, times: FuelStintAverageTimes) -> bool {
    config.race_start_utc@ == config.race_end_utc@ || times.standard_fuel_stint.track_time@ == 0
}

/// What drawing up the schedule of `s` gives: `next` and the result `r`
/// (`Ok(render)`); an `Err` is only named here, the state it leaves is the
/// caller's to state.
pub open spec fn creates(s: FuelStintSchedule, next: FuelStintSchedule, r: Result<bool, ScheduleError>) -> bool {
    if configured(s) && s.schedule_rows@.len() == 0 {
        let c = s.overall_event_config->0;
        let t = s.fuel_stint_times->0;
        let tire = s.overall_fuel_stint_config->0.tire_change_time@;
        if nothing_to_plan(c, t) {
            &&& r == Ok::<bool, ScheduleError>(false)
            &&& next == s
        } else if schedule_plannable(c, t, tire) {
            &&& r == Ok::<bool, ScheduleError>(true)
            &&& is_built_schedule(next.schedule_rows@, c, t, tire)
            &&& same_settings(s, next)
        } else {
            r == Err::<bool, ScheduleError>(ScheduleError::OutOfRange)
        }
    } else {
        &&& r == Ok::<bool, ScheduleError>(false)
        &&& next == s
    }
}

/// A time on the clock, as the actual end of a stint is typed in.
#[derive(Clone, Copy, Debug, PartialEq, Eq, Structural)]
pub struct ClockTime {
    pub hour: u32,
    pub minute: u32,
    pub second: u32,
}

/// The ways an actual end may be typed, tried in this order: hour on a
/// twelve-hour clock, minutes and AM or PM; `HH:MM`; `HH:MM:SS`; and the
/// twelve-hour clock with seconds.
pub const TWELVE_HOUR_FORMAT: &'static str = CLOCK_TIME_FORMAT;
pub const HOUR_MINUTE_FORMAT: &'static str = "%R";
pub const HOUR_MINUTE_SECOND_FORMAT: &'static str = "%T";
pub const TWELVE_HOUR_SECONDS_FORMAT: &'static str = "%l:%M:%S %p";

/// The clock time of a time of day given as seconds from midnight and
/// nanoseconds past them.
pub open spec fn clock_time_of(parsed: Option<(u32, u32)>) -> Option<ClockTime> {
    match parsed {
        Some((secs, _)) => if secs < 86400 {
            Some(
                ClockTime {
                    hour: (secs / 3600) as u32,
                    minute: ((secs / 60) % 60) as u32,
                    second: (secs % 60) as u32,
                },
            )
        } else {
            None
        },
        None => None,
    }
}

/// What reading `text` as an actual end gives: the clock time of the first
/// format that reads it.
pub open spec fn actual_end_text_value(text: Seq<char>) -> Option<ClockTime> {
    let a = time_of_day_text_value(text, TWELVE_HOUR_FORMAT@);
    let b = time_of_day_text_value(text, HOUR_MINUTE_FORMAT@);
    let c = time_of_day_text_value(text, HOUR_MINUTE_SECOND_FORMAT@);
    let d = time_of_day_text_value(text, TWELVE_HOUR_SECONDS_FORMAT@);
    if a is Some {
        clock_time_of(a)
    } else if b is Some {
        clock_time_of(b)
    } else if c is Some {
        clock_time_of(c)
    } else {
        clock_time_of(d)
    }
}

fn to_clock_time(parsed: Option<(u32, u32)>) -> (t: Option<ClockTime>)
    ensures
        t == clock_time_of(parsed),
{
    match parsed {
        Some((secs, _)) => if secs < 86400 {
            Some(ClockTime { hour: secs / 3600, minute: (secs / 60) % 60, second: secs % 60 })
        } else {
            None
        },
        None => None,
    }
}

/// Reads the actual end of a stint as typed in a row of the schedule.
pub fn parse_actual_end_time(text: &str) -> (t: Option<ClockTime>)
    ensures
        t == actual_end_text_value(text@),
        t matches Some(ct) ==> ct.hour < 24 && ct.minute < 60 && ct.second < 60,
{
    let a = parse_time_of_day(text, TWELVE_HOUR_FORMAT);
    if a.is_some() {
        return to_clock_time(a);
    }
    let b = parse_time_of_day(text, HOUR_MINUTE_FORMAT);
    if b.is_some() {
        return to_clock_time(b);
    }
    let c = parse_time_of_day(text, HOUR_MINUTE_SECOND_FORMAT);
    if c.is_some() {
        return to_clock_time(c);
    }
    let d = parse_time_of_day(text, TWELVE_HOUR_SECONDS_FORMAT);
    to_clock_time(d)
}

/// What a row's driver select reports: the text of the chosen item and its
/// position, the blank item being the first.
pub struct DriverChoice {
    pub value: String,
    pub index: i32,
}

/// The edits of the schedule screen.
pub enum FuelStintScheduleMsg {
    /// The stored rows, if any, and what the schedule is planned from.
    OnCreate(Option<Vec<ScheduleDataRow>>, ScheduleRelatedData),
    /// A row's stint type was changed.
    UpdateFuelStintType(StintType, usize),
    /// A row's actual end was typed in.
    UpdateActualEndTime(ClockTime, usize),
    /// A row's driver was chosen.
    UpdateDriver(DriverChoice, usize),
}

/// What a taken edit asks of the screen: whether to draw it again, and
/// whether the number of rows changed, so that the table must be set up
/// again.
#[derive(Clone, Copy, Debug, PartialEq, Eq, Structural)]
pub struct ScheduleUpdate {
    pub render: bool,
    pub row_count_changed: bool,
}

/// `s` with the settings and drivers of `data`.
pub open spec fn with_related_data(s: FuelStintSchedule, data: ScheduleRelatedData) -> FuelStintSchedule {
    FuelStintSchedule {
        schedule_rows: s.schedule_rows,
        overall_event_config: data.overall_event_config,
        fuel_stint_times: data.fuel_stint_times,
        overall_fuel_stint_config: Some(data.overall_fuel_stint_config),
        drivers: Some(data.drivers),
    }
}

/// `row` is `old_row` run as a stint of type `t`, planned again from its
/// own start; nothing else of it changes.
pub open spec fn retyped(
    old_row: ScheduleDataRow,
    row: ScheduleDataRow,
    t: StintType,
    times: FuelStintAverageTimes,
    race_end: int,
    tire: int,
) -> bool {
    let d = planned_stint_nanos(old_row.utc_start@, t, times, tire, race_end);
    &&& row.stint_type == t
    &&& row.utc_end@ == old_row.utc_start@ + d
    &&& row.tod_end@ == old_row.tod_start@ + d
    &&& row.actual_end == row.utc_end
    &&& row.calculated_laps == planned_laps(old_row.utc_start@, t, times, tire, race_end)
    &&& row.actual_laps == row.calculated_laps
    &&& row == (ScheduleDataRow {
        stint_type: row.stint_type,
        utc_end: row.utc_end,
        tod_end: row.tod_end,
        actual_end: row.actual_end,
        calculated_laps: row.calculated_laps,
        actual_laps: row.actual_laps,
        ..old_row
    })
}

/// The outcome of changing the stint type of row `i` of `s` to `t`.
pub open spec fn retype_outcome(
    s: FuelStintSchedule,
    next: FuelStintSchedule,
    t: StintType,
    i: int,
    r: Result<ScheduleUpdate, ScheduleError>,
) -> bool {
    let rows = s.schedule_rows@;
    if i >= rows.len() {
        r == Err::<ScheduleUpdate, ScheduleError>(ScheduleError::NoSuchRow)
    } else if !configured(s) {
        r == Err::<ScheduleUpdate, ScheduleError>(ScheduleError::NotConfigured)
    } else {
        let c = s.overall_event_config->0;
        let times = s.fuel_stint_times->0;
        let tire = s.overall_fuel_stint_config->0.tire_change_time@;
        let e = c.race_end_utc@;
        let row = rows[i];
        let d = planned_stint_nanos(row.utc_start@, t, times, tire, e);
        if plannable_from(row.utc_start@, row.tod_start@, t, times, e, tire) && replannable_with(
            rows,
            i,
            row.utc_start@ + d,
            row.utc_start@ + d,
            row.tod_start@ + d,
            row.stint_number as int,
            c,
            times,
            tire,
        ) {
            &&& r == Ok::<ScheduleUpdate, ScheduleError>(
                ScheduleUpdate {
                    render: true,
                    row_count_changed: next.schedule_rows@.len() != rows.len(),
                },
            )
            &&& retyped(row, next.schedule_rows@[i], t, times, e, tire)
            &&& is_replanned_schedule(
                rows.update(i, next.schedule_rows@[i]),
                next.schedule_rows@,
                i,
                c,
                times,
                tire,
            )
            &&& same_settings(s, next)
        } else {
            r == Err::<ScheduleUpdate, ScheduleError>(ScheduleError::OutOfRange)
        }
    }
}

/// The outcome of setting the actual end of row `i` of `s` to the clock
/// time `ct` of its day.
pub open spec fn actual_end_outcome(
    s: FuelStintSchedule,
    next: FuelStintSchedule,
    ct: ClockTime,
    i: int,
    r: Result<ScheduleUpdate, ScheduleError>,
) -> bool {
    let rows = s.schedule_rows@;
    if i >= rows.len() {
        r == Err::<ScheduleUpdate, ScheduleError>(ScheduleError::NoSuchRow)
    } else if !configured(s) {
        r == Err::<ScheduleUpdate, ScheduleError>(ScheduleError::NotConfigured)
    } else {
        let c = s.overall_event_config->0;
        let times = s.fuel_stint_times->0;
        let tire = s.overall_fuel_stint_config->0.tire_change_time@;
        let row = rows[i];
        let end = with_time_of_day_nanos(
            row.actual_end@,
            ct.hour as int,
            ct.minute as int,
            ct.second as int,
        );
        if ct.hour < 24 && ct.minute < 60 && ct.second < 60 && replannable_with(
            rows,
            i,
            end,
            row.utc_end@,
            row.tod_end@,
            row.stint_number as int,
            c,
            times,
            tire,
        ) {
            let new_row = next.schedule_rows@[i];
            &&& r == Ok::<ScheduleUpdate, ScheduleError>(
                ScheduleUpdate {
                    render: true,
                    row_count_changed: next.schedule_rows@.len() != rows.len(),
                },
            )
            &&& new_row.actual_end@ == end
            &&& new_row.duration_delta@ == end - row.utc_end@
            &&& new_row == (ScheduleDataRow {
                actual_end: new_row.actual_end,
                duration_delta: new_row.duration_delta,
                ..row
            })
            &&& is_replanned_schedule(rows.update(i, new_row), next.schedule_rows@, i, c, times, tire)
            &&& same_settings(s, next)
        } else {
            r == Err::<ScheduleUpdate, ScheduleError>(ScheduleError::OutOfRange)
        }
    }
}

/// The stint number of row `i` once its driver is `name`: one more than the
/// row before when that row has the same driver, else 1.
pub open spec fn chosen_stint_number(rows: Seq<ScheduleDataRow>, i: int, name: Seq<char>) -> int {
    if i > 0 && rows[i - 1].driver_name@ == name {
        rows[i - 1].stint_number + 1
    } else {
        1
    }
}

/// What choosing `choice` in the driver select of row `i` puts in the row:
/// its driver's name, stint preference and stint number; or why it cannot
/// be taken.
pub open spec fn driver_choice_result(s: FuelStintSchedule, choice: DriverChoice, i: int) -> Result<
    (Seq<char>, int, int),
    ScheduleError,
> {
    let rows = s.schedule_rows@;
    if choice.index == i32::MIN {
        Err(ScheduleError::NoSuchDriver)
    } else if choice.index - 1 < 0 {
        Ok((Seq::<char>::empty(), 0, 1))
    } else if s.drivers is None || choice.index - 1 >= s.drivers->0@.len() {
        Err(ScheduleError::NoSuchDriver)
    } else if i > 0 && rows[i - 1].driver_name@ == choice.value@ && rows[i - 1].stint_number
        == i32::MAX {
        Err(ScheduleError::OutOfRange)
    } else {
        Ok(
            (
                choice.value@,
                s.drivers->0@[choice.index - 1].stint_preference as int,
                chosen_stint_number(rows, i, choice.value@),
            ),
        )
    }
}

/// The outcome of choosing `choice` in the driver select of row `i` of `s`.
pub open spec fn driver_outcome(
    s: FuelStintSchedule,
    next: FuelStintSchedule,
    choice: DriverChoice,
    i: int,
    r: Result<ScheduleUpdate, ScheduleError>,
) -> bool {
    let rows = s.schedule_rows@;
    if i >= rows.len() {
        r == Err::<ScheduleUpdate, ScheduleError>(ScheduleError::NoSuchRow)
    } else if !configured(s) {
        r == Err::<ScheduleUpdate, ScheduleError>(ScheduleError::NotConfigured)
    } else {
        match driver_choice_result(s, choice, i) {
            Err(e) => r == Err::<ScheduleUpdate, ScheduleError>(e),
            Ok((name, preference, number)) => {
                let c = s.overall_event_config->0;
                let times = s.fuel_stint_times->0;
                let tire = s.overall_fuel_stint_config->0.tire_change_time@;
                let row = rows[i];
                if replannable_with(
                    rows,
                    i,
                    row.actual_end@,
                    row.utc_end@,
                    row.tod_end@,
                    number,
                    c,
                    times,
                    tire,
                ) {
                    let new_row = next.schedule_rows@[i];
                    &&& r == Ok::<ScheduleUpdate, ScheduleError>(
                        ScheduleUpdate {
                            render: true,
                            row_count_changed: next.schedule_rows@.len() != rows.len(),
                        },
                    )
                    &&& new_row.driver_name@ == name
                    &&& new_row.stint_preference == preference
                    &&& new_row.stint_number == number
                    &&& new_row == (ScheduleDataRow {
                        driver_name: new_row.driver_name,
                        stint_preference: new_row.stint_preference,
                        stint_number: new_row.stint_number,
                        ..row
                    })
                    &&& is_replanned_schedule(
                        rows.update(i, new_row),
                        next.schedule_rows@,
                        i,
                        c,
                        times,
                        tire,
                    )
                    &&& same_settings(s, next)
                } else {
                    r == Err::<ScheduleUpdate, ScheduleError>(ScheduleError::OutOfRange)
                }
            },
        }
    }
}

/// The outcome of handing the screen its stored rows, if any, and what the
/// schedule is planned from: with no rows, the schedule is drawn up; with
/// rows, the first is planned again from the green flag and the rest after
/// it.
pub open spec fn on_create_outcome(
    s: FuelStintSchedule,
    next: FuelStintSchedule,
    stored: Option<Vec<ScheduleDataRow>>,
    data: ScheduleRelatedData,
    r: Result<ScheduleUpdate, ScheduleError>,
) -> bool {
    let s1 = with_related_data(s, data);
    match stored {
        None => {
            &&& creates(
                s1,
                next,
                match r {
                    Ok(u) => Ok::<bool, ScheduleError>(u.render),
                    Err(e) => Err::<bool, ScheduleError>(e),
                },
            )
            &&& r matches Ok(u) ==> !u.row_count_changed
        },
        Some(rows) => {
            if data.overall_event_config is Some && data.fuel_stint_times is Some {
                let c = data.overall_event_config->0;
                let times = data.fuel_stint_times->0;
                let tire = data.overall_fuel_stint_config.tire_change_time@;
                let e = c.race_end_utc@;
                let start = c.race_start_utc@;
                let tod = c.race_start_tod@;
                if nothing_to_plan(c, times) {
                    &&& r == Ok::<ScheduleUpdate, ScheduleError>(
                        ScheduleUpdate { render: false, row_count_changed: false },
                    )
                    &&& next == s1
                } else if rows@.len() == 0 {
                    r == Err::<ScheduleUpdate, ScheduleError>(ScheduleError::NoSuchRow)
                } else {
                    let t = rows@[0].stint_type;
                    let d = planned_stint_nanos(start, t, times, tire, e);
                    if plannable_from(start, tod, t, times, e, tire) && replannable_with(
                        rows@,
                        0,
                        start + d,
                        start + d,
                        tod + d,
                        1,
                        c,
                        times,
                        tire,
                    ) {
                        &&& r == Ok::<ScheduleUpdate, ScheduleError>(
                            ScheduleUpdate {
                                render: true,
                                row_count_changed: next.schedule_rows@.len() != rows@.len(),
                            },
                        )
                        &&& replanned(
                            rows@[0],
                            next.schedule_rows@[0],
                            start,
                            tod,
                            Seq::<char>::empty(),
                            1,
                            times,
                            e,
                            tire,
                        )
                        &&& is_replanned_schedule(
                            rows@.update(0, next.schedule_rows@[0]),
                            next.schedule_rows@,
                            0,
                            c,
                            times,
                            tire,
                        )
                        &&& same_settings(s1, next)
                    } else {
                        r == Err::<ScheduleUpdate, ScheduleError>(ScheduleError::OutOfRange)
                    }
                }
            } else {
                &&& r == Ok::<ScheduleUpdate, ScheduleError>(
                    ScheduleUpdate { render: false, row_count_changed: false },
                )
                &&& next == s1
            }
        },
    }
}

/// The outcome of an edit of the schedule screen.
pub open spec fn update_outcome(
    s: FuelStintSchedule,
    next: FuelStintSchedule,
    msg: FuelStintScheduleMsg,
    r: Result<ScheduleUpdate, ScheduleError>,
) -> bool {
    match msg {
        FuelStintScheduleMsg::OnCreate(stored, data) => on_create_outcome(s, next, stored, data, r),
        FuelStintScheduleMsg::UpdateFuelStintType(t, i) => retype_outcome(s, next, t, i as int, r),
        FuelStintScheduleMsg::UpdateActualEndTime(ct, i) => actual_end_outcome(s, next, ct, i as int, r),
        FuelStintScheduleMsg::UpdateDriver(choice, i) => driver_outcome(s, next, choice, i as int, r),
    }
}

/// Putting a row with the same fuel stint number in place of row `i` and
/// planning the rest again keeps the stints numbered.
proof fn lemma_row_edit_keeps_numbering(
    rows: Seq<ScheduleDataRow>,
    next: Seq<ScheduleDataRow>,
    i: int,
    config: EventConfigData,
    times: FuelStintAverageTimes,
    tire: int,
)
    requires
        numbered(rows),
        0 <= i < rows.len(),
        i < next.len(),
        next[i].fuel_stint_number == rows[i].fuel_stint_number,
        is_replanned_schedule(rows.update(i, next[i]), next, i, config, times, tire),
    ensures
        numbered(next),
{
    let mid = rows.update(i, next[i]);
    assert(numbered(mid)) by {
        assert forall|j: int| 0 <= j < mid.len() implies (#[trigger] mid[j]).fuel_stint_number == j + 1 by {
            if j != i {
                assert(mid[j] == rows[j]);
            }
        }
    }
    lemma_replanned_schedule_is_numbered(mid, next, i, config, times, tire);
}

/// Every edit that the schedule screen takes keeps its fuel stints numbered
/// 1, 2, 3 and so on, as long as the rows it is handed are.
pub proof fn lemma_schedule_edits_keep_numbering(
    s: FuelStintSchedule,
    next: FuelStintSchedule,
    msg: FuelStintScheduleMsg,
    r: Result<ScheduleUpdate, ScheduleError>,
)
    requires
        update_outcome(s, next, msg, r),
        r is Ok,
        numbered(s.schedule_rows@),
        msg matches FuelStintScheduleMsg::OnCreate(Some(stored), _) ==> numbered(stored@),
    ensures
        numbered(next.schedule_rows@),
{
    match msg {
        FuelStintScheduleMsg::OnCreate(stored, data) => {
            let s1 = with_related_data(s, data);
            match stored {
                None => {
                    if configured(s1) && s1.schedule_rows@.len() == 0 {
                        let c = s1.overall_event_config->0;
                        let t = s1.fuel_stint_times->0;
                        let tire = s1.overall_fuel_stint_config->0.tire_change_time@;
                        if !nothing_to_plan(c, t) && schedule_plannable(c, t, tire) {
                            let rows = next.schedule_rows@;
                            assert forall|j: int| 0 <= j < rows.len() implies (#[trigger] rows[j]).fuel_stint_number
                                == j + 1 by {
                                lemma_built_schedule_is_contiguous(rows, c, t, tire, j);
                            }
                        }
                    }
                },
                Some(rows) => {
                    if data.overall_event_config is Some && data.fuel_stint_times is Some
                        && !nothing_to_plan(data.overall_event_config->0, data.fuel_stint_times->0) {
                        let c = data.overall_event_config->0;
                        let times = data.fuel_stint_times->0;
                        let tire = data.overall_fuel_stint_config.tire_change_time@;
                        reveal(replanned);
                        lemma_row_edit_keeps_numbering(rows@, next.schedule_rows@, 0, c, times, tire);
                    }
                },
            }
        },
        FuelStintScheduleMsg::UpdateFuelStintType(t, i) => {
            lemma_row_edit_keeps_numbering(
                s.schedule_rows@,
                next.schedule_rows@,
                i as int,
                s.overall_event_config->0,
                s.fuel_stint_times->0,
                s.overall_fuel_stint_config->0.tire_change_time@,
            );
        },
        FuelStintScheduleMsg::UpdateActualEndTime(ct, i) => {
            lemma_row_edit_keeps_numbering(
                s.schedule_rows@,
                next.schedule_rows@,
                i as int,
                s.overall_event_config->0,
                s.fuel_stint_times->0,
                s.overall_fuel_stint_config->0.tire_change_time@,
            );
        },
        FuelStintScheduleMsg::UpdateDriver(choice, i) => {
            lemma_row_edit_keeps_numbering(
                s.schedule_rows@,
                next.schedule_rows@,
                i as int,
                s.overall_event_config->0,
                s.fuel_stint_times->0,
                s.overall_fuel_stint_config->0.tire_change_time@,
            );
        },
    }
}

impl FuelStintSchedule {
    /// A screen with no rows and nothing known yet.
    pub fn new() -> (s: FuelStintSchedule)
        ensures
            s.schedule_rows@.len() == 0,
            s.overall_event_config is None,
            s.fuel_stint_times is None,
            s.overall_fuel_stint_config is None,
            s.drivers is None,
    {
        FuelStintSchedule {
            schedule_rows: Vec::new(),
            overall_event_config: None,
            fuel_stint_times: None,
            overall_fuel_stint_config: None,
            drivers: None,
        }
    }

    /// Draws up the schedule when everything it is planned from is known and
    /// there is none yet. `Ok(true)` when rows were made; `Ok(false)` when
    /// there was nothing to do; `Err`, with the state as it was, when the
    /// stints would not fit the representable range.
    pub fn create_schedule(&mut self) -> (r: Result<bool, ScheduleError>)
        ensures
            creates(*old(self), *final(self), r),
            r is Err ==> *final(self) == *old(self),
    {
        if self.schedule_rows.len() != 0 {
            return Ok(false);
        }
        let config = match &self.overall_event_config {
            Some(c) => *c,
            None => {
                return Ok(false);
            },
        };
        let times = match &self.fuel_stint_times {
            Some(t) => *t,
            None => {
                return Ok(false);
            },
        };
        let fuel_stint_config = match &self.overall_fuel_stint_config {
            Some(f) => *f,
            None => {
                return Ok(false);
            },
        };
        if config.race_start_utc.as_nanos() == config.race_end_utc.as_nanos()
            || times.standard_fuel_stint.track_time.as_nanos() == 0 {
            return Ok(false);
        }
        let tire = fuel_stint_config.tire_change_time;
        if !can_build_schedule(&config, &times, tire) {
            return Err(ScheduleError::OutOfRange);
        }
        self.schedule_rows = build_schedule(&config, &times, tire);
        Ok(true)
    }

    /// Runs row `i` as a stint of type `t`, planned again from its own
    /// start, then plans the stints after it again.
    fn retype_row(&mut self, t: StintType, i: usize) -> (r: Result<ScheduleUpdate, ScheduleError>)
        ensures
            retype_outcome(*old(self), *final(self), t, i as int, r),
            r is Err ==> *final(self) == *old(self),
    {
        if i >= self.schedule_rows.len() {
            return Err(ScheduleError::NoSuchRow);
        }
        let (config, times, tire) = match (
            &self.overall_event_config,
            &self.fuel_stint_times,
            &self.overall_fuel_stint_config,
        ) {
            (Some(c), Some(t), Some(f)) => (*c, *t, f.tire_change_time),
            _ => {
                return Err(ScheduleError::NotConfigured);
            },
        };
        let ghost rows = self.schedule_rows@;
        let start = self.schedule_rows[i].utc_start;
        let tod_start = self.schedule_rows[i].tod_start;
        if !can_plan_from(start, tod_start, t, &times, config.race_end_utc, tire) {
            return Err(ScheduleError::OutOfRange);
        }
        proof {
            reveal(plannable_from);
        }
        let (d, laps) = calculate_stint_duration_and_laps(start, t, &times, config.race_end_utc, tire);
        let end = start.add(&d);
        let tod_end = tod_start.add(&d);
        if !can_replan(
            &self.schedule_rows,
            i,
            end,
            end,
            tod_end,
            self.schedule_rows[i].stint_number,
            &config,
            &times,
            tire,
        ) {
            return Err(ScheduleError::OutOfRange);
        }
        let mut row = self.schedule_rows[i].clone();
        row.stint_type = t;
        row.utc_end = end;
        row.tod_end = tod_end;
        row.actual_end = end;
        row.calculated_laps = laps;
        row.actual_laps = laps;
        proof {
            lemma_replannable_with(rows, i as int, row, config, times, tire@);
        }
        self.schedule_rows[i] = row;
        assert(self.schedule_rows@ == rows.update(i as int, row));
        let row_count_changed = replan_schedule(&mut self.schedule_rows, i, &config, &times, tire);
        Ok(ScheduleUpdate { render: true, row_count_changed })
    }


    /// Sets the actual end of row `i` to the clock time `ct` of its day,
    /// records how far that is from its planned end, then plans the stints
    /// after it again.
    fn set_actual_end(&mut self, ct: ClockTime, i: usize) -> (r: Result<ScheduleUpdate, ScheduleError>)
        ensures
            actual_end_outcome(*old(self), *final(self), ct, i as int, r),
            r is Err ==> *final(self) == *old(self),
    {
        if i >= self.schedule_rows.len() {
            return Err(ScheduleError::NoSuchRow);
        }
        let (config, times, tire) = match (
            &self.overall_event_config,
            &self.fuel_stint_times,
            &self.overall_fuel_stint_config,
        ) {
            (Some(c), Some(t), Some(f)) => (*c, *t, f.tire_change_time),
            _ => {
                return Err(ScheduleError::NotConfigured);
            },
        };
        if ct.hour >= 24 || ct.minute >= 60 || ct.second >= 60 {
            return Err(ScheduleError::OutOfRange);
        }
        let ghost rows = self.schedule_rows@;
        let end = self.schedule_rows[i].actual_end.with_time_of_day(ct.hour, ct.minute, ct.second);
        if !can_replan(
            &self.schedule_rows,
            i,
            end,
            self.schedule_rows[i].utc_end,
            self.schedule_rows[i].tod_end,
            self.schedule_rows[i].stint_number,
            &config,
            &times,
            tire,
        ) {
            return Err(ScheduleError::OutOfRange);
        }
        let mut row = self.schedule_rows[i].clone();
        row.actual_end = end;
        row.duration_delta = end.since(&row.utc_end);
        proof {
            lemma_replannable_with(rows, i as int, row, config, times, tire@);
        }
        self.schedule_rows[i] = row;
        assert(self.schedule_rows@ == rows.update(i as int, row));
        let row_count_changed = replan_schedule(&mut self.schedule_rows, i, &config, &times, tire);
        Ok(ScheduleUpdate { render: true, row_count_changed })
    }

    /// Puts the driver of `choice` in row `i`, or no driver for the blank
    /// item, numbers the stint after the row before, then plans the stints
    /// after it again.
    fn choose_driver(&mut self, choice: DriverChoice, i: usize) -> (r: Result<ScheduleUpdate, ScheduleError>)
        ensures
            driver_outcome(*old(self), *final(self), choice, i as int, r),
            r is Err ==> *final(self) == *old(self),
    {
        if i >= self.schedule_rows.len() {
            return Err(ScheduleError::NoSuchRow);
        }
        let (config, times, tire) = match (
            &self.overall_event_config,
            &self.fuel_stint_times,
            &self.overall_fuel_stint_config,
        ) {
            (Some(c), Some(t), Some(f)) => (*c, *t, f.tire_change_time),
            _ => {
                return Err(ScheduleError::NotConfigured);
            },
        };
        if choice.index == i32::MIN {
            return Err(ScheduleError::NoSuchDriver);
        }
        let ghost rows = self.schedule_rows@;
        let ghost value = choice.value@;
        let driver_index = choice.index - 1;
        let mut row = self.schedule_rows[i].clone();
        if driver_index < 0 {
            row.driver_name = String::new();
            row.stint_preference = 0;
            row.stint_number = 1;
        } else {
            let preference = match &self.drivers {
                Some(drivers) => {
                    if driver_index as usize >= drivers.len() {
                        return Err(ScheduleError::NoSuchDriver);
                    }
                    drivers[driver_index as usize].stint_preference
                },
                None => {
                    return Err(ScheduleError::NoSuchDriver);
                },
            };
            let mut stint_number: i32 = 1;
            if i > 0 {
                let previous = &self.schedule_rows[i - 1];
                if previous.driver_name == choice.value {
                    if previous.stint_number == i32::MAX {
                        return Err(ScheduleError::OutOfRange);
                    }
                    stint_number = previous.stint_number + 1;
                }
            }
            row.driver_name = choice.value;
            row.stint_preference = preference as i32;
            row.stint_number = stint_number;
        }
        if !can_replan(
            &self.schedule_rows,
            i,
            row.actual_end,
            row.utc_end,
            row.tod_end,
            row.stint_number,
            &config,
            &times,
            tire,
        ) {
            return Err(ScheduleError::OutOfRange);
        }
        proof {
            lemma_replannable_with(rows, i as int, row, config, times, tire@);
        }
        self.schedule_rows[i] = row;
        assert(self.schedule_rows@ == rows.update(i as int, row));
        let row_count_changed = replan_schedule(&mut self.schedule_rows, i, &config, &times, tire);
        Ok(ScheduleUpdate { render: true, row_count_changed })
    }


    fn on_create(&mut self, stored: Option<Vec<ScheduleDataRow>>, data: ScheduleRelatedData) -> (r: Result<
        ScheduleUpdate,
        ScheduleError,
    >)
        ensures
            on_create_outcome(*old(self), *final(self), stored, data, r),
            r is Err ==> *final(self) == *old(self),
    {
        let ghost s1 = with_related_data(*self, data);
        let ScheduleRelatedData {
            overall_event_config,
            fuel_stint_times,
            overall_fuel_stint_config,
            drivers,
        } = data;
        match stored {
            None => {
                if self.schedule_rows.len() == 0 {
                    match (&overall_event_config, &fuel_stint_times) {
                        (Some(c), Some(t)) => {
                            let nothing = c.race_start_utc.as_nanos() == c.race_end_utc.as_nanos()
                                || t.standard_fuel_stint.track_time.as_nanos() == 0;
                            if !nothing && !can_build_schedule(
                                c,
                                t,
                                overall_fuel_stint_config.tire_change_time,
                            ) {
                                return Err(ScheduleError::OutOfRange);
                            }
                        },
                        _ => {},
                    }
                }
                self.overall_event_config = overall_event_config;
                self.fuel_stint_times = fuel_stint_times;
                self.overall_fuel_stint_config = Some(overall_fuel_stint_config);
                self.drivers = Some(drivers);
                assert(*self == s1);
                match self.create_schedule() {
                    Ok(render) => Ok(ScheduleUpdate { render, row_count_changed: false }),
                    Err(e) => Err(e),
                }
            },
            Some(mut rows) => {
                let (c, times) = match (&overall_event_config, &fuel_stint_times) {
                    (Some(c), Some(t)) => (*c, *t),
                    _ => {
                        self.overall_event_config = overall_event_config;
                        self.fuel_stint_times = fuel_stint_times;
                        self.overall_fuel_stint_config = Some(overall_fuel_stint_config);
                        self.drivers = Some(drivers);
                        return Ok(ScheduleUpdate { render: false, row_count_changed: false });
                    },
                };
                if c.race_start_utc.as_nanos() == c.race_end_utc.as_nanos()
                    || times.standard_fuel_stint.track_time.as_nanos() == 0 {
                    self.overall_event_config = overall_event_config;
                    self.fuel_stint_times = fuel_stint_times;
                    self.overall_fuel_stint_config = Some(overall_fuel_stint_config);
                    self.drivers = Some(drivers);
                    return Ok(ScheduleUpdate { render: false, row_count_changed: false });
                }
                if rows.len() == 0 {
                    return Err(ScheduleError::NoSuchRow);
                }
                let tire = overall_fuel_stint_config.tire_change_time;
                let start = c.race_start_utc;
                let tod = c.race_start_tod;
                let t = rows[0].stint_type;
                if !can_plan_from(start, tod, t, &times, c.race_end_utc, tire) {
                    return Err(ScheduleError::OutOfRange);
                }
                proof {
                    reveal(plannable_from);
                }
                let (d, _laps) = calculate_stint_duration_and_laps(start, t, &times, c.race_end_utc, tire);
                let end = start.add(&d);
                let tod_end = tod.add(&d);
                if !can_replan(&rows, 0, end, end, tod_end, 1, &c, &times, tire) {
                    return Err(ScheduleError::OutOfRange);
                }
                let ghost before = rows@;
                let no_driver = String::new();
                rows[0].update(start, tod, &no_driver, 1, &times, c.race_end_utc, tire);
                proof {
                    lemma_replanned_facts(
                        before[0],
                        rows@[0],
                        start@,
                        tod@,
                        no_driver@,
                        1,
                        times,
                        c.race_end_utc@,
                        tire@,
                    );
                    lemma_replannable_with(before, 0, rows@[0], c, times, tire@);
                    assert(rows@ == before.update(0, rows@[0]));
                }
                let row_count_changed = replan_schedule(&mut rows, 0, &c, &times, tire);
                self.schedule_rows = rows;
                self.overall_event_config = overall_event_config;
                self.fuel_stint_times = fuel_stint_times;
                self.overall_fuel_stint_config = Some(overall_fuel_stint_config);
                self.drivers = Some(drivers);
                Ok(ScheduleUpdate { render: true, row_count_changed })
            },
        }
    }

    /// Takes an edit of the screen. `Ok` tells whether to draw the screen
    /// again and whether the number of rows changed; `Err` leaves the state
    /// as it was and says why the edit was not taken.
    pub fn update(&mut self, msg: FuelStintScheduleMsg) -> (r: Result<ScheduleUpdate, ScheduleError>)
        ensures
            r is Err ==> *final(self) == *old(self),
            update_outcome(*old(self), *final(self), msg, r),
    {
        match msg {
            FuelStintScheduleMsg::OnCreate(stored, data) => self.on_create(stored, data),
            FuelStintScheduleMsg::UpdateFuelStintType(t, i) => self.retype_row(t, i),
            FuelStintScheduleMsg::UpdateActualEndTime(ct, i) => self.set_actual_end(ct, i),
            FuelStintScheduleMsg::UpdateDriver(choice, i) => self.choose_driver(choice, i),
        }
    }

}

/// A stint as its driver sees it: its start and end moved by the driver's
/// UTC offset, and the colour and stint preference the row shows.
pub struct DriverLocalStint {
    pub local_start: Instant,
    pub local_end: Instant,
    pub driver_color: String,
    pub stint_preference: i16,
}

/// The first driver from position `j` on whose id is `id`.
pub open spec fn driver_index_from(drivers: Seq<Driver>, id: i32, j: int) -> Option<int>
    decreases drivers.len() - j,
{
    if j < 0 || j >= drivers.len() {
        None
    } else if drivers[j].id == id {
        Some(j)
    } else {
        driver_index_from(drivers, id, j + 1)
    }
}

/// The driver of a stint: the first of `drivers` with the stint's driver id.
pub open spec fn stint_driver(drivers: Option<Vec<Driver>>, id: i32) -> Option<Driver> {
    match drivers {
        Some(d) => match driver_index_from(d@, id, 0) {
            Some(k) => Some(d@[k]),
            None => None,
        },
        None => None,
    }
}

/// An instant moved by a whole number of hours.
pub open spec fn shifted_by_hours(t: int, hours: int) -> int {
    t + hours * NANOS_PER_HOUR
}

/// The stint's ends, moved by its driver's UTC offset, can be represented.
pub open spec fn local_times_fit(utc_start: int, utc_end: int, drivers: Option<Vec<Driver>>, id: i32) -> bool {
    match stint_driver(drivers, id) {
        Some(d) => instant_in_range(shifted_by_hours(utc_start, d.utc_offset as int))
            && instant_in_range(shifted_by_hours(utc_end, d.utc_offset as int)),
        None => true,
    }
}

/// What the schedule shows of the stint from `utc_start` to `utc_end` for the
/// driver with id `driver_id`: with that driver in `drivers`, both ends in
/// the driver's own time, the driver's colour and stint preference; with no
/// such driver, the UTC ends, no colour and no preference.
pub fn driver_local_stint(
    utc_start: Instant,
    utc_end: Instant,
    driver_id: i32,
    drivers: &Option<Vec<Driver>>,
) -> (v: DriverLocalStint)
    requires
        local_times_fit(utc_start@, utc_end@, *drivers, driver_id),
    ensures
        match stint_driver(*drivers, driver_id) {
            Some(d) => {
                &&& v.local_start@ == shifted_by_hours(utc_start@, d.utc_offset as int)
                &&& v.local_end@ == shifted_by_hours(utc_end@, d.utc_offset as int)
                &&& v.driver_color@ == d.color@
                &&& v.stint_preference == d.stint_preference
            },
            None => {
                &&& v.local_start == utc_start
                &&& v.local_end == utc_end
                &&& v.driver_color@ == Seq::<char>::empty()
                &&& v.stint_preference == 0
            },
        },
{
    let none = DriverLocalStint {
        local_start: utc_start,
        local_end: utc_end,
        driver_color: String::new(),
        stint_preference: 0,
    };
    let list = match drivers {
        Some(d) => d,
        None => {
            return none;
        },
    };
    let mut i: usize = 0;
    while i < list.len()
        invariant
            *drivers == Some(*list),
            local_times_fit(utc_start@, utc_end@, *drivers, driver_id),
            i <= list.len(),
            driver_index_from(list@, driver_id, 0) == driver_index_from(list@, driver_id, i as int),
        decreases list.len() - i,
    {
        if list[i].id == driver_id {
            let d = &list[i];
            let offset = Duration::hours(d.utc_offset as i64);
            return DriverLocalStint {
                local_start: utc_start.add(&offset),
                local_end: utc_end.add(&offset),
                driver_color: d.color.clone(),
                stint_preference: d.stint_preference,
            };
        }
        i = i + 1;
    }
    none
}

/// While the standard stint has no laps on track (its track time is zero,
/// whatever its pit stop or the tire change), there is nothing to draw up:
/// the schedule stays as it was and is not drawn again.
pub proof fn lemma_no_track_time_creates_nothing(
    s: FuelStintSchedule,
    next: FuelStintSchedule,
    r: Result<bool, ScheduleError>,
)
    requires
        creates(s, next, r),
        s.fuel_stint_times matches Some(t) && t.standard_fuel_stint.track_time@ == 0,
    ensures
        r == Ok::<bool, ScheduleError>(false),
        next == s,
{
}

/// Handed its settings with no stored rows while the standard stint has no
/// laps on track, the schedule screen draws up no stints, keeps the rows it
/// had (none, when new) and is not drawn again.
pub proof fn lemma_no_track_time_on_create(
    s: FuelStintSchedule,
    next: FuelStintSchedule,
    data: ScheduleRelatedData,
    r: Result<ScheduleUpdate, ScheduleError>,
)
    requires
        on_create_outcome(s, next, None, data, r),
        data.fuel_stint_times matches Some(t) && t.standard_fuel_stint.track_time@ == 0,
    ensures
        r matches Ok(u) && !u.render && !u.row_count_changed,
        next.schedule_rows@ == s.schedule_rows@,
        s.schedule_rows@.len() == 0 ==> next.schedule_rows@.len() == 0,
{
    lemma_no_track_time_creates_nothing(with_related_data(s, data), next, match r {
        Ok(u) => Ok::<bool, ScheduleError>(u.render),
        Err(e) => Err::<bool, ScheduleError>(e),
    });
}

/// Choosing a driver for row `i` puts that driver in the row and numbers
/// the stint: one more than the row before when that row has the same
/// driver, else 1; the blank item clears the driver and numbers the stint 1.
pub proof fn lemma_chosen_driver_numbering(
    s: FuelStintSchedule,
    next: FuelStintSchedule,
    choice: DriverChoice,
    i: int,
    r: Result<ScheduleUpdate, ScheduleError>,
)
    requires
        0 <= i,
        driver_outcome(s, next, choice, i, r),
        r is Ok,
    ensures
        ({
            let rows = s.schedule_rows@;
            let row = next.schedule_rows@[i];
            &&& i < rows.len()
            &&& choice.index >= 1 ==> row.driver_name@ == choice.value@
            &&& choice.index < 1 ==> row.driver_name@.len() == 0 && row.stint_number == 1
            &&& choice.index >= 1 && i == 0 ==> row.stint_number == 1
            &&& choice.index >= 1 && i > 0 && rows[i - 1].driver_name@ != choice.value@
                ==> row.stint_number == 1
            &&& choice.index >= 1 && i > 0 && rows[i - 1].driver_name@ == choice.value@
                ==> row.stint_number == rows[i - 1].stint_number + 1
        }),
{
}

} // verus!
