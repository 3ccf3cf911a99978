//! The fuel stint schedule: one row per stint, from the green flag until
//! the race ends.

use crate::event_config::EventConfigData;
use crate::stint::{FuelStintAverageTimes, StintData};
use crate::text::same_text;
use crate::time::{abs, duration_in_range, instant_in_range, trunc_div, Duration, Instant, MAX_DURATION_NANOS, NANOS_PER_MILLI};
use vstd::prelude::*;
use vstd::string::*;

verus! {

/// What a stint is run for: saving fuel or at the standard pace, and with or
/// without a tire change at its pit stop.
#[derive(Clone, Copy, Debug, PartialEq, Eq, Structural)]
pub enum StintType {
    FuelSavingNoTires,
    FuelSavingWithTires,
    StandardNoTires,
    StandardWithTires,
}

/// The name under which a stint type is shown and chosen.
pub open spec fn stint_type_label(t: StintType) -> Seq<char> {
    match t {
        StintType::FuelSavingNoTires => FUEL_SAVING_NO_TIRES@,
        StintType::FuelSavingWithTires => FUEL_SAVING_WITH_TIRES@,
        StintType::StandardNoTires => STANDARD_NO_TIRES@,
        StintType::StandardWithTires => STANDARD_WITH_TIRES@,
    }
}

/// The names of the stint types.
pub const FUEL_SAVING_NO_TIRES: &'static str = "fs no tires";
pub const FUEL_SAVING_WITH_TIRES: &'static str = "fs w/ tires";
pub const STANDARD_NO_TIRES: &'static str = "std no tires";
pub const STANDARD_WITH_TIRES: &'static str = "std w/ tires";

/// What follows the text in the message of a name that is no stint type.
pub const NOT_A_STINT_TYPE: &'static str = " cannot be mapped to a valid StintType";

/// No two stint types share a name, so reading a type's name gives back
/// that type.
pub proof fn lemma_stint_type_label_injective(t: StintType, u: StintType)
    ensures
        stint_type_label(t) == stint_type_label(u) ==> t == u,
{
    reveal_strlit("fs no tires");
    reveal_strlit("fs w/ tires");
    reveal_strlit("std no tires");
    reveal_strlit("std w/ tires");
    assert(FUEL_SAVING_NO_TIRES@[1] != STANDARD_NO_TIRES@[1]);
    assert(FUEL_SAVING_NO_TIRES@[3] != FUEL_SAVING_WITH_TIRES@[3]);
    assert(STANDARD_NO_TIRES@[4] != STANDARD_WITH_TIRES@[4]);
    assert(FUEL_SAVING_WITH_TIRES@[1] != STANDARD_WITH_TIRES@[1]);
    assert(FUEL_SAVING_NO_TIRES@[1] != STANDARD_WITH_TIRES@[1]);
    assert(FUEL_SAVING_WITH_TIRES@[1] != STANDARD_NO_TIRES@[1]);
}

impl StintType {
    /// The name under which the type is shown.
    pub fn label(&self) -> (s: &'static str)
        ensures
            s@ == stint_type_label(*self),
    {
        match self {
            StintType::FuelSavingNoTires => FUEL_SAVING_NO_TIRES,
            StintType::FuelSavingWithTires => FUEL_SAVING_WITH_TIRES,
            StintType::StandardNoTires => STANDARD_NO_TIRES,
            StintType::StandardWithTires => STANDARD_WITH_TIRES,
        }
    }

    /// The type whose name is `s`; else a message that names `s`.
    pub fn from_label(s: &str) -> (r: Result<StintType, String>)
        ensures
            match r {
                Ok(t) => stint_type_label(t) == s@,
                Err(m) => {
                    &&& forall|t: StintType| stint_type_label(t) != s@
                    &&& m@ == s@ + NOT_A_STINT_TYPE@
                },
            },
    {
        if same_text(s, FUEL_SAVING_NO_TIRES) {
            Ok(StintType::FuelSavingNoTires)
        } else if same_text(s, FUEL_SAVING_WITH_TIRES) {
            Ok(StintType::FuelSavingWithTires)
        } else if same_text(s, STANDARD_NO_TIRES) {
            Ok(StintType::StandardNoTires)
        } else if same_text(s, STANDARD_WITH_TIRES) {
            Ok(StintType::StandardWithTires)
        } else {
            let mut m = String::from_str(s);
            m.append(NOT_A_STINT_TYPE);
            assert forall|t: StintType| stint_type_label(t) != s@ by {
                match t {
                    StintType::FuelSavingNoTires => {},
                    StintType::FuelSavingWithTires => {},
                    StintType::StandardNoTires => {},
                    StintType::StandardWithTires => {},
                }
            }
            Err(m)
        }
    }
}

/// The stint saves fuel.
pub open spec fn is_fuel_saving(t: StintType) -> bool {
    t == StintType::FuelSavingNoTires || t == StintType::FuelSavingWithTires
}

/// The stint's pit stop changes tires.
pub open spec fn changes_tires(t: StintType) -> bool {
    t == StintType::FuelSavingWithTires || t == StintType::StandardWithTires
}

/// The average stint that a stint of type `t` is planned from.
pub open spec fn stint_data_for(t: StintType, times: FuelStintAverageTimes) -> StintData {
    if is_fuel_saving(t) {
        times.fuel_saving_stint
    } else {
        times.standard_fuel_stint
    }
}

/// How long a full stint of type `t` takes, pit stop included, and the tire
/// change when the stint has one.
pub open spec fn full_stint_nanos(t: StintType, times: FuelStintAverageTimes, tire: int) -> int {
    stint_data_for(t, times).track_time_with_pit@ + if changes_tires(t) {
        tire
    } else {
        0
    }
}

/// `x` held within `i32`.
pub open spec fn clamp_i32(x: int) -> int {
    if x < i32::MIN {
        i32::MIN as int
    } else if x > i32::MAX {
        i32::MAX as int
    } else {
        x
    }
}

/// The least integer at or above `a / b`.
pub open spec fn ceil_div(a: int, b: int) -> int
    recommends
        b != 0,
{
    if b > 0 {
        -((-a) / b)
    } else {
        -(a / (-b))
    }
}

/// The laps that fit in a stint of `stint_ms` milliseconds when a lap takes
/// `lap_ms`: the quotient rounded up, held within `i32`; with no lap time,
/// the most laps there are for a positive stint, the fewest for a negative
/// one, and none for an empty one.
pub open spec fn laps_in(stint_ms: int, lap_ms: int) -> int {
    if lap_ms == 0 {
        if stint_ms > 0 {
            i32::MAX as int
        } else if stint_ms < 0 {
            i32::MIN as int
        } else {
            0
        }
    } else {
        clamp_i32(ceil_div(stint_ms, lap_ms))
    }
}

/// A stint that starts at `start` is cut short at the race's end when a full
/// one would run past it.
pub open spec fn cut_short(start: int, t: StintType, times: FuelStintAverageTimes, tire: int, race_end: int) -> bool {
    start + full_stint_nanos(t, times, tire) > race_end
}

/// The length of a stint of type `t` that starts at `start`.
pub open spec fn planned_stint_nanos(
    start: int,
    t: StintType,
    times: FuelStintAverageTimes,
    tire: int,
    race_end: int,
) -> int {
    if cut_short(start, t, times, tire, race_end) {
        race_end - start
    } else {
        full_stint_nanos(t, times, tire)
    }
}

/// The laps that a stint of type `t` that starts at `start` is planned for.
#[verifier::opaque]
pub open spec fn planned_laps(
    start: int,
    t: StintType,
    times: FuelStintAverageTimes,
    tire: int,
    race_end: int,
) -> int {
    if cut_short(start, t, times, tire, race_end) {
        laps_in(
            trunc_div(race_end - start, NANOS_PER_MILLI as int),
            trunc_div(stint_data_for(t, times).lap_time@, NANOS_PER_MILLI as int),
        )
    } else {
        stint_data_for(t, times).lap_count as int
    }
}

proof fn lemma_floor_div_bound(x: int, d: int)
    requires
        d >= 1,
    ensures
        -abs(x) <= x / d <= abs(x),
{
    vstd::arithmetic::div_mod::lemma_fundamental_div_mod(x, d);
    vstd::arithmetic::div_mod::lemma_mod_bound(x, d);
    let q = x / d;
    let r = x % d;
    assert(-abs(x) <= q <= abs(x)) by (nonlinear_arith)
        requires
            x == d * q + r,
            0 <= r < d,
            d >= 1,
            abs(x) == if x < 0 {
                -x
            } else {
                x
            },
    ;
}

/// The up-rounded quotient of two millisecond counts.
fn laps_in_exec(stint_ms: i64, lap_ms: i64) -> (laps: i32)
    ensures
        laps == laps_in(stint_ms as int, lap_ms as int),
{
    if lap_ms == 0 {
        if stint_ms > 0 {
            i32::MAX
        } else if stint_ms < 0 {
            i32::MIN
        } else {
            0
        }
    } else {
        let a = stint_ms as i128;
        let b = lap_ms as i128;
        proof {
            if b > 0 {
                lemma_floor_div_bound(-a as int, b as int);
            } else {
                lemma_floor_div_bound(a as int, -b as int);
            }
        }
        let c: i128 = if b > 0 {
            let f = (-a).checked_div_euclid(b).unwrap();
            -f
        } else {
            let f = a.checked_div_euclid(-b).unwrap();
            -f
        };
        if c < i32::MIN as i128 {
            i32::MIN
        } else if c > i32::MAX as i128 {
            i32::MAX
        } else {
            c as i32
        }
    }
}

/// How long a stint of type `stint_type` that starts at `stint_utc_start`
/// lasts, and how many laps it is planned for: a full stint when it ends by
/// the race's end, else the time left and the laps it takes to fill it.
pub fn calculate_stint_duration_and_laps(
    stint_utc_start: Instant,
    stint_type: StintType,
    fuel_stint_times: &FuelStintAverageTimes,
    race_end_utc: Instant,
    tire_change_time: Duration,
) -> (r: (Duration, i32))
    requires
        duration_in_range(full_stint_nanos(stint_type, *fuel_stint_times, tire_change_time@)),
        instant_in_range(
            stint_utc_start@ + full_stint_nanos(stint_type, *fuel_stint_times, tire_change_time@),
        ),
    ensures
        r.0@ == planned_stint_nanos(
            stint_utc_start@,
            stint_type,
            *fuel_stint_times,
            tire_change_time@,
            race_end_utc@,
        ),
        r.1 == planned_laps(
            stint_utc_start@,
            stint_type,
            *fuel_stint_times,
            tire_change_time@,
            race_end_utc@,
        ),
        instant_in_range(stint_utc_start@ + r.0@),
{
    reveal(planned_laps);
    let _ = race_end_utc.as_nanos();
    let fuel_stint_data = match stint_type {
        StintType::FuelSavingNoTires | StintType::FuelSavingWithTires => {
            &fuel_stint_times.fuel_saving_stint
        },
        StintType::StandardNoTires | StintType::StandardWithTires => {
            &fuel_stint_times.standard_fuel_stint
        },
    };
    let track_time_with_pit = match stint_type {
        StintType::FuelSavingWithTires | StintType::StandardWithTires => {
            fuel_stint_data.track_time_with_pit.add(&tire_change_time)
        },
        StintType::FuelSavingNoTires | StintType::StandardNoTires => {
            fuel_stint_data.track_time_with_pit
        },
    };
    let planned_end = stint_utc_start.add(&track_time_with_pit);
    if planned_end.as_nanos() > race_end_utc.as_nanos() {
        let stint_duration = race_end_utc.since(&stint_utc_start);
        let calculated_laps = laps_in_exec(
            stint_duration.num_milliseconds(),
            fuel_stint_data.lap_time.num_milliseconds(),
        );
        (stint_duration, calculated_laps)
    } else {
        (track_time_with_pit, fuel_stint_data.lap_count)
    }
}

/// One stint of the schedule.
#[derive(Debug)]
pub struct ScheduleDataRow {
    pub stint_type: StintType,
    pub fuel_stint_number: i32,
    pub utc_start: Instant,
    pub utc_end: Instant,
    pub tod_start: Instant,
    pub tod_end: Instant,
    pub actual_end: Instant,
    pub duration_delta: Duration,
    pub damage_modifier: Duration,
    pub calculated_laps: i32,
    pub actual_laps: i32,
    pub driver_name: String,
    pub availability: String,
    pub stint_number: i32,
    pub stint_preference: i32,
    pub local_start: Instant,
    pub local_end: Instant,
}

impl Clone for ScheduleDataRow {
    fn clone(&self) -> (row: Self)
        ensures
            row == *self,
    {
        ScheduleDataRow {
            stint_type: self.stint_type,
            fuel_stint_number: self.fuel_stint_number,
            utc_start: self.utc_start,
            utc_end: self.utc_end,
            tod_start: self.tod_start,
            tod_end: self.tod_end,
            actual_end: self.actual_end,
            duration_delta: self.duration_delta,
            damage_modifier: self.damage_modifier,
            calculated_laps: self.calculated_laps,
            actual_laps: self.actual_laps,
            driver_name: self.driver_name.clone(),
            availability: self.availability.clone(),
            stint_number: self.stint_number,
            stint_preference: self.stint_preference,
            local_start: self.local_start,
            local_end: self.local_end,
        }
    }
}

/// The stint number of a stint whose driver is `name`, after a stint whose
/// driver was `previous_name` and had `previous_number`: one more when the
/// same named driver stays in the car, else 1.
pub open spec fn next_stint_number(name: Seq<char>, previous_name: Seq<char>, previous_number: int) -> int {
    if name.len() != 0 && previous_name.len() != 0 && previous_name == name {
        previous_number + 1
    } else {
        1
    }
}

/// A planned stint of `d` that starts at `utc_start` and `tod_start`, with its
/// actual end where it was planned to end.
pub open spec fn timed_as_planned(row: ScheduleDataRow, utc_start: int, tod_start: int, d: int) -> bool {
    &&& row.utc_start@ == utc_start
    &&& row.utc_end@ == utc_start + d
    &&& row.tod_start@ == tod_start
    &&& row.tod_end@ == tod_start + d
    &&& row.actual_end == row.utc_end
    &&& row.duration_delta@ == 0
}

/// A row that no driver has been put in yet.
pub open spec fn unassigned(row: ScheduleDataRow) -> bool {
    &&& row.driver_name@ == Seq::<char>::empty()
    &&& row.availability@ == Seq::<char>::empty()
    &&& row.stint_number == 1
    &&& row.stint_preference == 0
}

/// `row` is the race's first stint: a fuel-saving stint without a tire
/// change from the green flag, the full length of the fuel-saving stint.
pub open spec fn is_first_row(row: ScheduleDataRow, config: EventConfigData, times: FuelStintAverageTimes) -> bool {
    let d = times.fuel_saving_stint.track_time_with_pit@;
    &&& row.stint_type == StintType::FuelSavingNoTires
    &&& row.fuel_stint_number == 1
    &&& timed_as_planned(row, config.race_start_utc@, config.race_start_tod@, d)
    &&& row.damage_modifier@ == 0
    &&& row.calculated_laps == times.fuel_saving_stint.lap_count
    &&& row.actual_laps == row.calculated_laps
    &&& unassigned(row)
    &&& row.local_start == config.race_start_utc
    &&& row.local_end@ == config.race_start_utc@ + d
}

/// `row` is a new stint of type `t` that starts where `prev` was planned
/// to end.
#[verifier::opaque]
pub open spec fn follows(
    prev: ScheduleDataRow,
    row: ScheduleDataRow,
    t: StintType,
    times: FuelStintAverageTimes,
    race_end: int,
    tire: int,
) -> bool {
    let start = prev.utc_end@;
    let d = planned_stint_nanos(start, t, times, tire, race_end);
    &&& row.stint_type == t
    &&& row.fuel_stint_number == prev.fuel_stint_number + 1
    &&& timed_as_planned(row, start, prev.tod_end@, d)
    &&& row.damage_modifier == prev.damage_modifier
    &&& row.calculated_laps == planned_laps(start, t, times, tire, race_end)
    &&& row.actual_laps == row.calculated_laps
    &&& unassigned(row)
    &&& row.local_start@ == start
    &&& row.local_end@ == start + d
}

/// `row` is `old_row` planned again from `utc_start` and `tod_start`, after
/// a stint whose driver was `previous_name` with stint number
/// `previous_number`. Its type, number, damage, driver, availability,
/// preference and local times stay.
#[verifier::opaque]
pub open spec fn replanned(
    old_row: ScheduleDataRow,
    row: ScheduleDataRow,
    utc_start: int,
    tod_start: int,
    previous_name: Seq<char>,
    previous_number: int,
    times: FuelStintAverageTimes,
    race_end: int,
    tire: int,
) -> bool {
    let t = old_row.stint_type;
    let d = planned_stint_nanos(utc_start, t, times, tire, race_end);
    &&& row.stint_type == t
    &&& row.fuel_stint_number == old_row.fuel_stint_number
    &&& timed_as_planned(row, utc_start, tod_start, d)
    &&& row.damage_modifier == old_row.damage_modifier
    &&& row.calculated_laps == planned_laps(utc_start, t, times, tire, race_end)
    &&& row.actual_laps == row.calculated_laps
    &&& row.driver_name@ == old_row.driver_name@
    &&& row.availability@ == old_row.availability@
    &&& row.stint_number == next_stint_number(row.driver_name@, previous_name, previous_number)
    &&& row.stint_preference == old_row.stint_preference
    &&& row.local_start == old_row.local_start
    &&& row.local_end == old_row.local_end
}

/// Row `j` of `rows` is row `j` of `old_rows` planned again from the actual
/// end of row `j - 1` of `rows`, whose time of day is `tod_offset` later.
pub open spec fn replanned_at(
    old_rows: Seq<ScheduleDataRow>,
    rows: Seq<ScheduleDataRow>,
    j: int,
    tod_offset: int,
    times: FuelStintAverageTimes,
    race_end: int,
    tire: int,
) -> bool {
    replanned(
        old_rows[j],
        rows[j],
        rows[j - 1].actual_end@,
        rows[j - 1].actual_end@ + tod_offset,
        rows[j - 1].driver_name@,
        rows[j - 1].stint_number as int,
        times,
        race_end,
        tire,
    )
}

/// Row `j` of `rows` is a new fuel-saving stint with a tire change after
/// row `j - 1`.
pub open spec fn follows_at(
    rows: Seq<ScheduleDataRow>,
    j: int,
    times: FuelStintAverageTimes,
    race_end: int,
    tire: int,
) -> bool {
    follows(rows[j - 1], rows[j], StintType::FuelSavingWithTires, times, race_end, tire)
}

/// A stint of type `t` that starts at `utc_start` and `tod_start` can be
/// planned without leaving the representable range.
#[verifier::opaque]
pub open spec fn plannable_from(
    utc_start: int,
    tod_start: int,
    t: StintType,
    times: FuelStintAverageTimes,
    race_end: int,
    tire: int,
) -> bool {
    let d = planned_stint_nanos(utc_start, t, times, tire, race_end);
    &&& duration_in_range(full_stint_nanos(t, times, tire))
    &&& instant_in_range(utc_start + full_stint_nanos(t, times, tire))
    &&& instant_in_range(tod_start + d)
}

impl ScheduleDataRow {
    /// The race's first stint.
    pub fn new(config: &EventConfigData, fuel_stint_times: &FuelStintAverageTimes) -> (row: ScheduleDataRow)
        requires
            instant_in_range(
                config.race_start_utc@ + fuel_stint_times.fuel_saving_stint.track_time_with_pit@,
            ),
            instant_in_range(
                config.race_start_tod@ + fuel_stint_times.fuel_saving_stint.track_time_with_pit@,
            ),
        ensures
            is_first_row(row, *config, *fuel_stint_times),
    {
        let stint_duration = fuel_stint_times.fuel_saving_stint.track_time_with_pit;
        let utc_end = config.race_start_utc.add(&stint_duration);
        ScheduleDataRow {
            stint_type: StintType::FuelSavingNoTires,
            fuel_stint_number: 1,
            utc_start: config.race_start_utc,
            utc_end,
            tod_start: config.race_start_tod,
            tod_end: config.race_start_tod.add(&stint_duration),
            actual_end: utc_end,
            duration_delta: Duration::zero(),
            damage_modifier: Duration::zero(),
            calculated_laps: fuel_stint_times.fuel_saving_stint.lap_count,
            actual_laps: fuel_stint_times.fuel_saving_stint.lap_count,
            driver_name: String::new(),
            availability: String::new(),
            stint_number: 1,
            stint_preference: 0,
            local_start: config.race_start_utc,
            local_end: config.race_start_utc.add(&stint_duration),
        }
    }

    /// The stint of type `stint_type` that comes after `previous_row`: it
    /// starts where `previous_row` was planned to end and carries its damage.
    pub fn from_previous(
        previous_row: &ScheduleDataRow,
        stint_type: StintType,
        fuel_stint_times: &FuelStintAverageTimes,
        race_end_utc: Instant,
        tire_change_time: Duration,
    ) -> (row: ScheduleDataRow)
        requires
            previous_row.fuel_stint_number < i32::MAX,
            plannable_from(
                previous_row.utc_end@,
                previous_row.tod_end@,
                stint_type,
                *fuel_stint_times,
                race_end_utc@,
                tire_change_time@,
            ),
        ensures
            follows(
                *previous_row,
                row,
                stint_type,
                *fuel_stint_times,
                race_end_utc@,
                tire_change_time@,
            ),
    {
        reveal(follows);
        reveal(plannable_from);
        let utc_start = previous_row.utc_end;
        let tod_start = previous_row.tod_end;
        let (stint_duration, calculated_laps) = calculate_stint_duration_and_laps(
            utc_start,
            stint_type,
            fuel_stint_times,
            race_end_utc,
            tire_change_time,
        );
        let utc_end = utc_start.add(&stint_duration);
        ScheduleDataRow {
            stint_type,
            fuel_stint_number: previous_row.fuel_stint_number + 1,
            utc_start,
            utc_end,
            tod_start,
            tod_end: tod_start.add(&stint_duration),
            actual_end: utc_end,
            duration_delta: Duration::zero(),
            damage_modifier: previous_row.damage_modifier,
            calculated_laps,
            actual_laps: calculated_laps,
            driver_name: String::new(),
            availability: String::new(),
            stint_number: 1,
            stint_preference: 0,
            local_start: utc_start,
            local_end: utc_start.add(&stint_duration),
        }
    }

    /// Plans this stint again from `utc_start` and `tod_start`, keeping its
    /// type, and numbers it after the stint before.
    pub fn update(
        &mut self,
        utc_start: Instant,
        tod_start: Instant,
        previous_row_driver_name: &String,
        previous_row_stint_number: i32,
        fuel_stint_times: &FuelStintAverageTimes,
        race_end_utc: Instant,
        tire_change_time: Duration,
    )
        requires
            plannable_from(
                utc_start@,
                tod_start@,
                old(self).stint_type,
                *fuel_stint_times,
                race_end_utc@,
                tire_change_time@,
            ),
            next_stint_number(
                old(self).driver_name@,
                previous_row_driver_name@,
                previous_row_stint_number as int,
            ) <= i32::MAX,
        ensures
            replanned(
                *old(self),
                *final(self),
                utc_start@,
                tod_start@,
                previous_row_driver_name@,
                previous_row_stint_number as int,
                *fuel_stint_times,
                race_end_utc@,
                tire_change_time@,
            ),
    {
        reveal(replanned);
        reveal(plannable_from);
        let (stint_duration, calculated_laps) = calculate_stint_duration_and_laps(
            utc_start,
            self.stint_type,
            fuel_stint_times,
            race_end_utc,
            tire_change_time,
        );
        self.utc_start = utc_start;
        self.utc_end = self.utc_start.add(&stint_duration);
        self.actual_end = self.utc_end;
        self.tod_start = tod_start;
        self.tod_end = self.tod_start.add(&stint_duration);
        self.calculated_laps = calculated_laps;
        self.actual_laps = calculated_laps;
        self.duration_delta = self.actual_end.since(&self.utc_end);
        let named = self.driver_name.unicode_len() != 0;
        let previous_named = previous_row_driver_name.unicode_len() != 0;
        if (named && previous_named) && *previous_row_driver_name == self.driver_name {
            self.stint_number = previous_row_stint_number + 1;
        } else {
            self.stint_number = 1;
        }
    }
}

/// Every stint from `from` on but the last ends before `race_end`, and the
/// last ends at or after it.
pub open spec fn covers_race(rows: Seq<ScheduleDataRow>, from: int, race_end: int) -> bool {
    &&& 0 <= from < rows.len()
    &&& forall|k: int| from <= k < rows.len() - 1 ==> (#[trigger] rows[k]).utc_end@ < race_end
    &&& rows.last().utc_end@ >= race_end
}

/// The schedule that is built from `config`: the first stint, then
/// fuel-saving stints with tire changes, each after the one before, until
/// one reaches the race's end.
pub open spec fn is_built_schedule(
    rows: Seq<ScheduleDataRow>,
    config: EventConfigData,
    times: FuelStintAverageTimes,
    tire: int,
) -> bool {
    &&& rows.len() >= 1
    &&& is_first_row(rows[0], config, times)
    &&& forall|j: int|
        0 < j < rows.len() ==> #[trigger] follows_at(rows, j, times, config.race_end_utc@, tire)
    &&& covers_race(rows, 0, config.race_end_utc@)
}

/// The schedule can be built without leaving the representable range and
/// without running past `i32::MAX` stints; when the first stint does not
/// reach the race's end, the stints after it must take time, or building
/// would never end.
pub open spec fn schedule_plannable(config: EventConfigData, times: FuelStintAverageTimes, tire: int) -> bool {
    let s = config.race_start_utc@;
    let t0 = config.race_start_tod@;
    let e = config.race_end_utc@;
    let d0 = times.fuel_saving_stint.track_time_with_pit@;
    let step = full_stint_nanos(StintType::FuelSavingWithTires, times, tire);
    &&& instant_in_range(s + d0)
    &&& instant_in_range(t0 + d0)
    &&& s + d0 < e ==> {
        &&& step > 0
        &&& duration_in_range(step)
        &&& instant_in_range(e + step)
        &&& instant_in_range(t0 + (e - s))
        &&& e - (s + d0) <= step * (i32::MAX - 2)
    }
}

proof fn lemma_count_bound(n: int, step: int, gap: int)
    requires
        n >= 1,
        step > 0,
        (n - 1) * step < gap,
        gap <= step * (i32::MAX - 2),
    ensures
        n + 1 <= i32::MAX,
{
    assert(n - 1 < i32::MAX - 2) by (nonlinear_arith)
        requires
            step > 0,
            (n - 1) * step < gap,
            gap <= step * (i32::MAX - 2),
    ;
}

proof fn lemma_step_product(n: int, step: int)
    ensures
        n * step + step == (n + 1) * step,
{
    assert(n * step + step == (n + 1) * step) by (nonlinear_arith);
}

/// Builds the schedule: the first stint, then fuel-saving stints with tire
/// changes until one reaches the race's end.
pub fn build_schedule(
    config: &EventConfigData,
    fuel_stint_times: &FuelStintAverageTimes,
    tire_change_time: Duration,
) -> (rows: Vec<ScheduleDataRow>)
    requires
        schedule_plannable(*config, *fuel_stint_times, tire_change_time@),
    ensures
        is_built_schedule(rows@, *config, *fuel_stint_times, tire_change_time@),
{
    let ghost s = config.race_start_utc@;
    let ghost t0 = config.race_start_tod@;
    let ghost e = config.race_end_utc@;
    let ghost d0 = fuel_stint_times.fuel_saving_stint.track_time_with_pit@;
    let ghost step = full_stint_nanos(
        StintType::FuelSavingWithTires,
        *fuel_stint_times,
        tire_change_time@,
    );
    let race_end = config.race_end_utc;
    let _ = race_end.as_nanos();
    let mut schedule_rows: Vec<ScheduleDataRow> = Vec::new();
    let first = ScheduleDataRow::new(config, fuel_stint_times);
    let mut is_schedule_complete = first.utc_end.as_nanos() >= race_end.as_nanos();
    schedule_rows.push(first);
    proof {
        assert(0 * step == 0) by (nonlinear_arith);
    }
    while !is_schedule_complete
        invariant
            s == config.race_start_utc@,
            t0 == config.race_start_tod@,
            e == config.race_end_utc@,
            race_end == config.race_end_utc,
            instant_in_range(e),
            d0 == fuel_stint_times.fuel_saving_stint.track_time_with_pit@,
            step == full_stint_nanos(
                StintType::FuelSavingWithTires,
                *fuel_stint_times,
                tire_change_time@,
            ),
            schedule_plannable(*config, *fuel_stint_times, tire_change_time@),
            schedule_rows.len() >= 1,
            is_first_row(schedule_rows@[0], *config, *fuel_stint_times),
            forall|j: int|
                0 < j < schedule_rows.len() ==> #[trigger] follows_at(
                    schedule_rows@,
                    j,
                    *fuel_stint_times,
                    e,
                    tire_change_time@,
                ),
            forall|k: int|
                0 <= k < schedule_rows.len() - 1 ==> (#[trigger] schedule_rows@[k]).utc_end@ < e,
            is_schedule_complete == (schedule_rows@.last().utc_end@ >= e),
            !is_schedule_complete ==> schedule_rows@.last().utc_end@ == s + d0 + (
            schedule_rows.len() - 1) * step,
            schedule_rows@.last().tod_end@ - schedule_rows@.last().utc_end@ == t0 - s,
            schedule_rows@.last().utc_end@ >= s + d0,
            schedule_rows@.last().fuel_stint_number == schedule_rows.len(),
        decreases e - schedule_rows@.last().utc_end@,
    {
        let n = schedule_rows.len();
        let ghost last = schedule_rows@[n - 1];
        proof {
            reveal(plannable_from);
            lemma_count_bound(n as int, step, e - (s + d0));
            lemma_step_product(n - 1, step);
        }
        let schedule_row = ScheduleDataRow::from_previous(
            &schedule_rows[n - 1],
            StintType::FuelSavingWithTires,
            fuel_stint_times,
            race_end,
            tire_change_time,
        );
        proof {
            lemma_follows_facts(
                last,
                schedule_row,
                StintType::FuelSavingWithTires,
                *fuel_stint_times,
                e,
                tire_change_time@,
            );
        }
        is_schedule_complete = schedule_row.utc_end.as_nanos() >= race_end.as_nanos();
        let ghost before = schedule_rows@;
        schedule_rows.push(schedule_row);
        proof {
            assert(schedule_rows@[n - 1] == last);
            assert(follows_at(schedule_rows@, n as int, *fuel_stint_times, e, tire_change_time@));
            assert forall|j: int| 0 < j < schedule_rows.len() implies #[trigger] follows_at(
                schedule_rows@,
                j,
                *fuel_stint_times,
                e,
                tire_change_time@,
            ) by {
                if j < n {
                    assert(follows_at(before, j, *fuel_stint_times, e, tire_change_time@));
                    assert(schedule_rows@[j] == before[j]);
                    assert(schedule_rows@[j - 1] == before[j - 1]);
                }
            }
        }
    }
    schedule_rows
}

/// The least of three.
pub open spec fn min3(a: int, b: int, c: int) -> int {
    if a <= b && a <= c {
        a
    } else if b <= c {
        b
    } else {
        c
    }
}

/// The greatest of three.
pub open spec fn max3(a: int, b: int, c: int) -> int {
    if a >= b && a >= c {
        a
    } else if b >= c {
        b
    } else {
        c
    }
}

/// The greater of two.
pub open spec fn max_int(a: int, b: int) -> int {
    if a >= b {
        a
    } else {
        b
    }
}

/// No full stint of any type takes negative time, and each can be
/// represented.
#[verifier::opaque]
pub open spec fn full_stints_nonnegative(times: FuelStintAverageTimes, tire: int) -> bool {
    &&& 0 <= full_stint_nanos(StintType::FuelSavingNoTires, times, tire)
    &&& 0 <= full_stint_nanos(StintType::FuelSavingWithTires, times, tire)
    &&& 0 <= full_stint_nanos(StintType::StandardNoTires, times, tire)
    &&& 0 <= full_stint_nanos(StintType::StandardWithTires, times, tire)
    &&& duration_in_range(full_stint_nanos(StintType::FuelSavingNoTires, times, tire))
    &&& duration_in_range(full_stint_nanos(StintType::FuelSavingWithTires, times, tire))
    &&& duration_in_range(full_stint_nanos(StintType::StandardNoTires, times, tire))
    &&& duration_in_range(full_stint_nanos(StintType::StandardWithTires, times, tire))
}

/// The longest full stint of any type.
#[verifier::opaque]
pub open spec fn longest_full_stint(times: FuelStintAverageTimes, tire: int) -> int {
    max_int(
        max_int(
            full_stint_nanos(StintType::FuelSavingNoTires, times, tire),
            full_stint_nanos(StintType::FuelSavingWithTires, times, tire),
        ),
        max_int(
            full_stint_nanos(StintType::StandardNoTires, times, tire),
            full_stint_nanos(StintType::StandardWithTires, times, tire),
        ),
    )
}

/// Planning the stints from row `j` on again, the first from `start` and
/// each later one from the end of the one before, one of them reaches the
/// race's end `e`.
pub open spec fn reaches_end(
    rows: Seq<ScheduleDataRow>,
    j: int,
    start: int,
    times: FuelStintAverageTimes,
    e: int,
    tire: int,
) -> bool
    decreases rows.len() - j,
{
    if j < 0 || j >= rows.len() {
        false
    } else {
        let end = start + planned_stint_nanos(start, rows[j].stint_type, times, tire, e);
        if end >= e {
            true
        } else {
            reaches_end(rows, j + 1, end, times, e, tire)
        }
    }
}

/// Whether the stints from row `j` on reach the race's end does not depend
/// on row `index` before them.
proof fn lemma_reaches_end_update(
    rows: Seq<ScheduleDataRow>,
    index: int,
    row: ScheduleDataRow,
    j: int,
    start: int,
    times: FuelStintAverageTimes,
    e: int,
    tire: int,
)
    requires
        0 <= index < j,
        index < rows.len(),
    ensures
        reaches_end(rows.update(index, row), j, start, times, e, tire) == reaches_end(
            rows,
            j,
            start,
            times,
            e,
            tire,
        ),
    decreases rows.len() - j,
{
    if j < rows.len() {
        assert(rows.update(index, row)[j] == rows[j]);
        let end = start + planned_stint_nanos(start, rows[j].stint_type, times, tire, e);
        lemma_reaches_end_update(rows, index, row, j + 1, end, times, e, tire);
    }
}

/// The stints after row `index` can be planned again without leaving the
/// representable range or running past `i32::MAX` in a count, and, where
/// stints have to be added at the end, adding them makes progress.
///
/// Every replanned stint starts and ends between the earliest and the
/// latest of row `index`'s actual end, its planned end and the race's end.
#[verifier::opaque]
pub open spec fn replannable(
    rows: Seq<ScheduleDataRow>,
    index: int,
    config: EventConfigData,
    times: FuelStintAverageTimes,
    tire: int,
) -> bool {
    replannable_with(
        rows,
        index,
        rows[index].actual_end@,
        rows[index].utc_end@,
        rows[index].tod_end@,
        rows[index].stint_number as int,
        config,
        times,
        tire,
    )
}

/// `replannable` for `rows` once row `index` ends at `actual_end` (actually)
/// and `utc_end` (as planned), at `tod_end` in time of day, and has stint
/// number `stint_number`.
#[verifier::opaque]
pub open spec fn replannable_with(
    rows: Seq<ScheduleDataRow>,
    index: int,
    actual_end: int,
    utc_end: int,
    tod_end: int,
    stint_number: int,
    config: EventConfigData,
    times: FuelStintAverageTimes,
    tire: int,
) -> bool {
    let e = config.race_end_utc@;
    let o = config.tod_offset@;
    let a = actual_end;
    let b = utc_end;
    let lo = min3(a, b, e);
    let hi = max3(a, b, e);
    let step = full_stint_nanos(StintType::FuelSavingWithTires, times, tire);
    let last_number = rows.last().fuel_stint_number as int;
    &&& 0 <= index < rows.len()
    &&& full_stints_nonnegative(times, tire)
    &&& instant_in_range(hi + longest_full_stint(times, tire))
    &&& instant_in_range(lo + o)
    &&& instant_in_range(hi + o)
    &&& (b < e && !reaches_end(rows, index + 1, a, times, e, tire)) ==> {
        &&& step > 0
        &&& last_number <= i32::MAX - 2
        &&& e - lo <= step * (i32::MAX - 2 - last_number)
    }
    &&& max_int(1, stint_number) + rows.len() <= i32::MAX
    &&& index == rows.len() - 1 ==> {
        let c = tod_end - b;
        &&& instant_in_range(lo + c)
        &&& instant_in_range(hi + c)
    }
}

/// Putting `row` in place of row `index` of `rows`, with the same fuel stint
/// number, leaves the stints after it replannable exactly when
/// `replannable_with` holds of `rows` and `row`'s ends and stint number.
pub proof fn lemma_replannable_with(
    rows: Seq<ScheduleDataRow>,
    index: int,
    row: ScheduleDataRow,
    config: EventConfigData,
    times: FuelStintAverageTimes,
    tire: int,
)
    requires
        0 <= index < rows.len(),
        row.fuel_stint_number == rows[index].fuel_stint_number,
    ensures
        replannable(rows.update(index, row), index, config, times, tire) == replannable_with(
            rows,
            index,
            row.actual_end@,
            row.utc_end@,
            row.tod_end@,
            row.stint_number as int,
            config,
            times,
            tire,
        ),
{
    reveal(replannable);
    reveal(replannable_with);
    assert(rows.update(index, row).last().fuel_stint_number == rows.last().fuel_stint_number);
    lemma_reaches_end_update(
        rows,
        index,
        row,
        index + 1,
        row.actual_end@,
        times,
        config.race_end_utc@,
        tire,
    );
}

/// `rows` is `old_rows` with the stints after `index` planned again, each
/// from the actual end of the one before, stints added at the end while
/// the last one falls short of the race's end, and stints past the one that
/// reaches it dropped.
pub open spec fn is_replanned_schedule(
    old_rows: Seq<ScheduleDataRow>,
    rows: Seq<ScheduleDataRow>,
    index: int,
    config: EventConfigData,
    times: FuelStintAverageTimes,
    tire: int,
) -> bool {
    let e = config.race_end_utc@;
    let o = config.tod_offset@;
    &&& index < rows.len()
    &&& forall|j: int| 0 <= j <= index ==> #[trigger] rows[j] == old_rows[j]
    &&& forall|j: int|
        index < j < rows.len() && j < old_rows.len() ==> #[trigger] replanned_at(
            old_rows,
            rows,
            j,
            o,
            times,
            e,
            tire,
        )
    &&& forall|j: int|
        index < j < rows.len() && j >= old_rows.len() ==> #[trigger] follows_at(
            rows,
            j,
            times,
            e,
            tire,
        )
    &&& covers_race(rows, index, e)
}

/// A full stint whose pit stop changes tires lasts its average stint's time
/// with the pit stop plus the tire change; one that keeps its tires lasts
/// the average stint's time with the pit stop alone. So each type with
/// tires lasts exactly the tire change longer than the same type without.
pub proof fn lemma_tire_change_lengthens_full_stint(times: FuelStintAverageTimes, tire: int)
    ensures
        full_stint_nanos(StintType::StandardNoTires, times, tire)
            == times.standard_fuel_stint.track_time_with_pit@,
        full_stint_nanos(StintType::StandardWithTires, times, tire)
            == times.standard_fuel_stint.track_time_with_pit@ + tire,
        full_stint_nanos(StintType::FuelSavingNoTires, times, tire)
            == times.fuel_saving_stint.track_time_with_pit@,
        full_stint_nanos(StintType::FuelSavingWithTires, times, tire)
            == times.fuel_saving_stint.track_time_with_pit@ + tire,
        full_stint_nanos(StintType::StandardWithTires, times, tire) == full_stint_nanos(
            StintType::StandardNoTires,
            times,
            tire,
        ) + tire,
        full_stint_nanos(StintType::FuelSavingWithTires, times, tire) == full_stint_nanos(
            StintType::FuelSavingNoTires,
            times,
            tire,
        ) + tire,
{
}

/// A stint that fits before the race's end is planned at its full length;
/// one that would run past it is planned to end exactly at the race's end.
pub proof fn lemma_planned_stint_length(
    start: int,
    t: StintType,
    times: FuelStintAverageTimes,
    tire: int,
    race_end: int,
)
    ensures
        start + full_stint_nanos(t, times, tire) <= race_end ==> planned_stint_nanos(
            start,
            t,
            times,
            tire,
            race_end,
        ) == full_stint_nanos(t, times, tire),
        start + full_stint_nanos(t, times, tire) > race_end ==> start + planned_stint_nanos(
            start,
            t,
            times,
            tire,
            race_end,
        ) == race_end,
{
}

/// A replanned stint goes on with its driver's count only when the stint
/// before it had the same driver, named: then it is one more than that
/// stint's number. A different driver, or no driver on either stint,
/// starts a new count at 1.
pub proof fn lemma_replanned_stint_number(
    old_row: ScheduleDataRow,
    row: ScheduleDataRow,
    utc_start: int,
    tod_start: int,
    previous_name: Seq<char>,
    previous_number: int,
    times: FuelStintAverageTimes,
    race_end: int,
    tire: int,
)
    requires
        replanned(
            old_row,
            row,
            utc_start,
            tod_start,
            previous_name,
            previous_number,
            times,
            race_end,
            tire,
        ),
    ensures
        row.driver_name@ == old_row.driver_name@,
        row.driver_name@ != previous_name ==> row.stint_number == 1,
        row.driver_name@.len() == 0 ==> row.stint_number == 1,
        row.driver_name@ == previous_name && previous_name.len() != 0 ==> row.stint_number
            == previous_number + 1,
{
    reveal(replanned);
}

/// What a replanned row's timing and numbers are.
pub proof fn lemma_replanned_facts(
    old_row: ScheduleDataRow,
    row: ScheduleDataRow,
    utc_start: int,
    tod_start: int,
    previous_name: Seq<char>,
    previous_number: int,
    times: FuelStintAverageTimes,
    race_end: int,
    tire: int,
)
    requires
        replanned(
            old_row,
            row,
            utc_start,
            tod_start,
            previous_name,
            previous_number,
            times,
            race_end,
            tire,
        ),
    ensures
        row.stint_type == old_row.stint_type,
        row.fuel_stint_number == old_row.fuel_stint_number,
        row.utc_start@ == utc_start,
        row.utc_end@ == utc_start + planned_stint_nanos(
            utc_start,
            old_row.stint_type,
            times,
            tire,
            race_end,
        ),
        row.tod_start@ == tod_start,
        row.tod_end@ == tod_start + planned_stint_nanos(
            utc_start,
            old_row.stint_type,
            times,
            tire,
            race_end,
        ),
        row.actual_end == row.utc_end,
        row.driver_name@ == old_row.driver_name@,
        row.stint_number == next_stint_number(row.driver_name@, previous_name, previous_number),
{
    reveal(replanned);
}

/// What a following row's timing and numbers are.
pub proof fn lemma_follows_facts(
    prev: ScheduleDataRow,
    row: ScheduleDataRow,
    t: StintType,
    times: FuelStintAverageTimes,
    race_end: int,
    tire: int,
)
    requires
        follows(prev, row, t, times, race_end, tire),
    ensures
        row.stint_type == t,
        row.fuel_stint_number == prev.fuel_stint_number + 1,
        row.utc_start@ == prev.utc_end@,
        row.utc_end@ == prev.utc_end@ + planned_stint_nanos(prev.utc_end@, t, times, tire, race_end),
        row.tod_start@ == prev.tod_end@,
        row.tod_end@ == prev.tod_end@ + planned_stint_nanos(prev.utc_end@, t, times, tire, race_end),
        row.actual_end == row.utc_end,
{
    reveal(follows);
}

/// A stint planned from `start` ends at the race's end or before it, and not
/// before both its start and the race's end.
proof fn lemma_planned_end_bounds(
    start: int,
    t: StintType,
    times: FuelStintAverageTimes,
    tire: int,
    e: int,
)
    requires
        0 <= full_stint_nanos(t, times, tire),
    ensures
        (if start <= e {
            start
        } else {
            e
        }) <= start + planned_stint_nanos(start, t, times, tire, e) <= e,
{
}

proof fn lemma_number_bound(m: int, step: int, gap: int, last: int)
    requires
        m >= 0,
        step > 0,
        m * step < gap,
        gap <= step * (i32::MAX - 2 - last),
    ensures
        last + m + 2 <= i32::MAX,
{
    assert(m < i32::MAX - 2 - last) by (nonlinear_arith)
        requires
            step > 0,
            m * step < gap,
            gap <= step * (i32::MAX - 2 - last),
    ;
}

/// A stint of any type planned from a start between `lo` and `hi` stays in
/// the representable range.
proof fn lemma_replan_step_in_range(
    start: int,
    o: int,
    t: StintType,
    times: FuelStintAverageTimes,
    tire: int,
    e: int,
    lo: int,
    hi: int,
)
    requires
        lo <= start <= hi,
        lo <= e <= hi,
        instant_in_range(lo),
        full_stints_nonnegative(times, tire),
        instant_in_range(hi + longest_full_stint(times, tire)),
        instant_in_range(lo + o),
        instant_in_range(hi + o),
    ensures
        plannable_from(start, start + o, t, times, e, tire),
        instant_in_range(start + o),
        lo <= start + planned_stint_nanos(start, t, times, tire, e) <= e,
{
    reveal(full_stints_nonnegative);
    reveal(longest_full_stint);
    reveal(plannable_from);
    lemma_planned_end_bounds(start, t, times, tire, e);
}

/// Plans again the stints after row `index` that are already in the
/// schedule, each from the actual end of the one before, until one reaches
/// the race's end. Gives the row it stopped at, and whether that row
/// reaches the race's end.
#[verifier::rlimit(80)]
fn replan_existing_rows(
    schedule_rows: &mut Vec<ScheduleDataRow>,
    index: usize,
    config: &EventConfigData,
    fuel_stint_times: &FuelStintAverageTimes,
    tire: Duration,
) -> (r: (usize, bool))
    requires
        replannable(old(schedule_rows)@, index as int, *config, *fuel_stint_times, tire@),
    ensures
        ({
            let (k, complete) = r;
            let old_rows = old(schedule_rows)@;
            let rows = final(schedule_rows)@;
            let e = config.race_end_utc@;
            let o = config.tod_offset@;
            let lo = min3(old_rows[index as int].actual_end@, old_rows[index as int].utc_end@, e);
            &&& rows.len() == old_rows.len()
            &&& index <= k < rows.len()
            &&& complete == (rows[k as int].utc_end@ >= e)
            &&& complete == (old_rows[index as int].utc_end@ >= e || reaches_end(
                old_rows,
                index + 1,
                old_rows[index as int].actual_end@,
                *fuel_stint_times,
                e,
                tire@,
            ))
            &&& !complete ==> k + 1 == rows.len()
            &&& forall|j: int| 0 <= j <= index ==> #[trigger] rows[j] == old_rows[j]
            &&& forall|j: int|
                index < j <= k ==> #[trigger] replanned_at(
                    old_rows,
                    rows,
                    j,
                    o,
                    *fuel_stint_times,
                    e,
                    tire@,
                )
            &&& forall|j: int| index <= j < k ==> (#[trigger] rows[j]).utc_end@ < e
            &&& forall|j: int| index < j <= k ==> lo <= (#[trigger] rows[j]).utc_end@ <= e
            &&& forall|j: int|
                0 <= j < rows.len() ==> (#[trigger] rows[j]).fuel_stint_number
                    == old_rows[j].fuel_stint_number
        }),
{
    proof {
        reveal(replannable);
        reveal(replannable_with);
    }
    let ghost old_rows = schedule_rows@;
    let old_len = schedule_rows.len();
    let race_end = config.race_end_utc;
    let tod_offset = config.tod_offset;
    let _ = race_end.as_nanos();
    let _ = schedule_rows[index].actual_end.as_nanos();
    let _ = schedule_rows[index].utc_end.as_nanos();
    let ghost e = race_end@;
    let ghost o = tod_offset@;
    let ghost a = old_rows[index as int].actual_end@;
    let ghost b = old_rows[index as int].utc_end@;
    let ghost lo = min3(a, b, e);
    let ghost hi = max3(a, b, e);
    let ghost first_number = old_rows[index as int].stint_number as int;
    let mut k = index;
    let mut is_schedule_complete = schedule_rows[k].utc_end.as_nanos() >= race_end.as_nanos();
    while !is_schedule_complete && k + 1 < schedule_rows.len()
        invariant
            full_stints_nonnegative(*fuel_stint_times, tire@),
            instant_in_range(hi + longest_full_stint(*fuel_stint_times, tire@)),
            instant_in_range(lo + o),
            instant_in_range(hi + o),
            max_int(1, first_number) + old_len <= i32::MAX,
            e == config.race_end_utc@,
            o == config.tod_offset@,
            race_end == config.race_end_utc,
            tod_offset == config.tod_offset,
            instant_in_range(e),
            instant_in_range(a),
            instant_in_range(b),
            a == old_rows[index as int].actual_end@,
            b == old_rows[index as int].utc_end@,
            lo == min3(a, b, e),
            hi == max3(a, b, e),
            first_number == old_rows[index as int].stint_number as int,
            old_len == old_rows.len(),
            schedule_rows.len() == old_len,
            index <= k < old_len,
            forall|j: int| 0 <= j <= index ==> #[trigger] schedule_rows@[j] == old_rows[j],
            forall|j: int| k < j < old_len ==> #[trigger] schedule_rows@[j] == old_rows[j],
            forall|j: int|
                index < j <= k ==> #[trigger] replanned_at(
                    old_rows,
                    schedule_rows@,
                    j,
                    o,
                    *fuel_stint_times,
                    e,
                    tire@,
                ),
            forall|j: int| index <= j < k ==> (#[trigger] schedule_rows@[j]).utc_end@ < e,
            forall|j: int|
                index < j <= k ==> lo <= (#[trigger] schedule_rows@[j]).utc_end@ <= e,
            forall|j: int|
                index <= j <= k ==> (#[trigger] schedule_rows@[j]).stint_number <= max_int(
                    1,
                    first_number,
                ) + (j - index),
            forall|j: int|
                0 <= j < old_len ==> (#[trigger] schedule_rows@[j]).fuel_stint_number
                    == old_rows[j].fuel_stint_number,
            is_schedule_complete == (schedule_rows@[k as int].utc_end@ >= e),
            b >= e ==> k == index && is_schedule_complete,
            b < e ==> reaches_end(old_rows, index + 1, a, *fuel_stint_times, e, tire@) == (
            is_schedule_complete || reaches_end(
                old_rows,
                k + 1,
                schedule_rows@[k as int].actual_end@,
                *fuel_stint_times,
                e,
                tire@,
            )),
        decreases old_len - k,
    {
        let ghost before = schedule_rows@;
        k = k + 1;
        let previous_row_actual_end = schedule_rows[k - 1].actual_end;
        let previous_row_driver_name = schedule_rows[k - 1].driver_name.clone();
        let previous_row_stint_number = schedule_rows[k - 1].stint_number;
        let _ = previous_row_actual_end.as_nanos();
        let ghost start = previous_row_actual_end@;
        let ghost t = schedule_rows@[k as int].stint_type;
        proof {
            if k - 1 > index {
                assert(replanned_at(old_rows, before, k - 1, o, *fuel_stint_times, e, tire@));
                lemma_replanned_facts(
                    old_rows[k - 1],
                    before[k - 1],
                    before[k - 2].actual_end@,
                    before[k - 2].actual_end@ + o,
                    before[k - 2].driver_name@,
                    before[k - 2].stint_number as int,
                    *fuel_stint_times,
                    e,
                    tire@,
                );
                assert(lo <= before[k - 1].utc_end@ <= e);
            }
            assert(lo <= start <= hi);
            lemma_replan_step_in_range(start, o, t, *fuel_stint_times, tire@, e, lo, hi);
            assert(before[k as int] == old_rows[k as int]);
            assert(before[k - 1].stint_number <= max_int(1, first_number) + (k - 1 - index));
        }
        let previous_row_tod_end = previous_row_actual_end.add(&tod_offset);
        schedule_rows[k].update(
            previous_row_actual_end,
            previous_row_tod_end,
            &previous_row_driver_name,
            previous_row_stint_number,
            fuel_stint_times,
            race_end,
            tire,
        );
        is_schedule_complete = schedule_rows[k].utc_end.as_nanos() >= race_end.as_nanos();
        proof {
            lemma_replanned_facts(
                old_rows[k as int],
                schedule_rows@[k as int],
                start,
                start + o,
                previous_row_driver_name@,
                previous_row_stint_number as int,
                *fuel_stint_times,
                e,
                tire@,
            );
            assert forall|j: int| 0 <= j < k implies #[trigger] schedule_rows@[j] == before[j] by {}
            assert(replanned_at(old_rows, schedule_rows@, k as int, o, *fuel_stint_times, e, tire@));
            assert forall|j: int| index < j <= k implies #[trigger] replanned_at(
                old_rows,
                schedule_rows@,
                j,
                o,
                *fuel_stint_times,
                e,
                tire@,
            ) by {
                if j < k {
                    assert(replanned_at(old_rows, before, j, o, *fuel_stint_times, e, tire@));
                    assert(schedule_rows@[j] == before[j]);
                    assert(schedule_rows@[j - 1] == before[j - 1]);
                }
            }
            assert(schedule_rows@[k as int].stint_number <= max_int(1, first_number) + (k - index));
            assert(reaches_end(old_rows, k as int, start, *fuel_stint_times, e, tire@) == (
            is_schedule_complete || reaches_end(
                old_rows,
                k + 1,
                schedule_rows@[k as int].actual_end@,
                *fuel_stint_times,
                e,
                tire@,
            )));
        }
    }
    (k, is_schedule_complete)
}

/// Adds fuel-saving stints with tire changes, each after the last, until
/// one reaches the race's end.
#[verifier::rlimit(40)]
fn extend_schedule(
    schedule_rows: &mut Vec<ScheduleDataRow>,
    config: &EventConfigData,
    fuel_stint_times: &FuelStintAverageTimes,
    tire: Duration,
    lo: Ghost<int>,
    hi: Ghost<int>,
)
    requires
        old(schedule_rows).len() >= 1,
        ({
            let last = old(schedule_rows)@.last();
            let e = config.race_end_utc@;
            let step = full_stint_nanos(StintType::FuelSavingWithTires, *fuel_stint_times, tire@);
            let c = last.tod_end@ - last.utc_end@;
            &&& lo@ <= last.utc_end@ <= hi@
            &&& lo@ <= e <= hi@
            &&& instant_in_range(lo@)
            &&& full_stints_nonnegative(*fuel_stint_times, tire@)
            &&& step > 0
            &&& instant_in_range(hi@ + longest_full_stint(*fuel_stint_times, tire@))
            &&& instant_in_range(lo@ + c)
            &&& instant_in_range(hi@ + c)
            &&& last.fuel_stint_number <= i32::MAX - 2
            &&& e - lo@ <= step * (i32::MAX - 2 - last.fuel_stint_number)
        }),
    ensures
        ({
            let old_rows = old(schedule_rows)@;
            let rows = final(schedule_rows)@;
            let e = config.race_end_utc@;
            &&& rows.len() >= old_rows.len()
            &&& forall|j: int| 0 <= j < old_rows.len() ==> #[trigger] rows[j] == old_rows[j]
            &&& forall|j: int|
                old_rows.len() <= j < rows.len() ==> #[trigger] follows_at(
                    rows,
                    j,
                    *fuel_stint_times,
                    e,
                    tire@,
                )
            &&& forall|j: int|
                old_rows.len() - 1 <= j < rows.len() - 1 ==> (#[trigger] rows[j]).utc_end@ < e
            &&& rows.last().utc_end@ >= e
        }),
{
    let ghost old_rows = schedule_rows@;
    let old_len = schedule_rows.len();
    let race_end = config.race_end_utc;
    let _ = race_end.as_nanos();
    let ghost e = race_end@;
    let ghost step = full_stint_nanos(StintType::FuelSavingWithTires, *fuel_stint_times, tire@);
    let ghost c = old_rows.last().tod_end@ - old_rows.last().utc_end@;
    let ghost last_number = old_rows.last().fuel_stint_number as int;
    let mut k = old_len - 1;
    let mut is_schedule_complete = schedule_rows[k].utc_end.as_nanos() >= race_end.as_nanos();
    proof {
        assert(0 * step == 0) by (nonlinear_arith);
    }
    while !is_schedule_complete
        invariant
            e == config.race_end_utc@,
            race_end == config.race_end_utc,
            instant_in_range(e),
            lo@ <= e <= hi@,
            instant_in_range(lo@),
            full_stints_nonnegative(*fuel_stint_times, tire@),
            step == full_stint_nanos(StintType::FuelSavingWithTires, *fuel_stint_times, tire@),
            step > 0,
            instant_in_range(hi@ + longest_full_stint(*fuel_stint_times, tire@)),
            instant_in_range(lo@ + c),
            instant_in_range(hi@ + c),
            last_number <= i32::MAX - 2,
            e - lo@ <= step * (i32::MAX - 2 - last_number),
            old_len == old_rows.len(),
            old_len >= 1,
            schedule_rows.len() == k + 1,
            k + 1 >= old_len,
            forall|j: int| 0 <= j < old_len ==> #[trigger] schedule_rows@[j] == old_rows[j],
            forall|j: int|
                old_len <= j <= k ==> #[trigger] follows_at(
                    schedule_rows@,
                    j,
                    *fuel_stint_times,
                    e,
                    tire@,
                ),
            forall|j: int| old_len - 1 <= j < k ==> (#[trigger] schedule_rows@[j]).utc_end@ < e,
            is_schedule_complete == (schedule_rows@[k as int].utc_end@ >= e),
            lo@ <= schedule_rows@[k as int].utc_end@ <= hi@,
            schedule_rows@[k as int].tod_end@ - schedule_rows@[k as int].utc_end@ == c,
            schedule_rows@[k as int].fuel_stint_number == last_number + (k + 1 - old_len),
            !is_schedule_complete ==> schedule_rows@[k as int].utc_end@ >= lo@ + (k + 1 - old_len)
                * step,
        decreases e - schedule_rows@[k as int].utc_end@,
    {
        let ghost prev = schedule_rows@[k as int];
        proof {
            lemma_number_bound(k + 1 - old_len, step, e - lo@, last_number);
            lemma_step_product(k + 1 - old_len, step);
            lemma_replan_step_in_range(
                prev.utc_end@,
                c,
                StintType::FuelSavingWithTires,
                *fuel_stint_times,
                tire@,
                e,
                lo@,
                hi@,
            );
        }
        let schedule_row = ScheduleDataRow::from_previous(
            &schedule_rows[k],
            StintType::FuelSavingWithTires,
            fuel_stint_times,
            race_end,
            tire,
        );
        proof {
            lemma_follows_facts(
                prev,
                schedule_row,
                StintType::FuelSavingWithTires,
                *fuel_stint_times,
                e,
                tire@,
            );
        }
        is_schedule_complete = schedule_row.utc_end.as_nanos() >= race_end.as_nanos();
        let ghost before = schedule_rows@;
        schedule_rows.push(schedule_row);
        k = k + 1;
        proof {
            assert(schedule_rows@[k - 1] == prev);
            assert(follows_at(schedule_rows@, k as int, *fuel_stint_times, e, tire@));
            assert forall|j: int| old_len <= j <= k implies #[trigger] follows_at(
                schedule_rows@,
                j,
                *fuel_stint_times,
                e,
                tire@,
            ) by {
                if j < k {
                    assert(follows_at(before, j, *fuel_stint_times, e, tire@));
                    assert(schedule_rows@[j] == before[j]);
                    assert(schedule_rows@[j - 1] == before[j - 1]);
                }
            }
        }
    }
}

/// Plans again every stint after row `update_row_index`, each from the
/// actual end of the one before; while the last stint falls short of the
/// race's end, adds fuel-saving stints with tire changes; drops the stints
/// after the first one that reaches it. Tells whether the number of rows
/// changed.
pub fn replan_schedule(
    schedule_rows: &mut Vec<ScheduleDataRow>,
    update_row_index: usize,
    config: &EventConfigData,
    fuel_stint_times: &FuelStintAverageTimes,
    tire_change_time: Duration,
) -> (length_changed: bool)
    requires
        replannable(
            old(schedule_rows)@,
            update_row_index as int,
            *config,
            *fuel_stint_times,
            tire_change_time@,
        ),
    ensures
        is_replanned_schedule(
            old(schedule_rows)@,
            final(schedule_rows)@,
            update_row_index as int,
            *config,
            *fuel_stint_times,
            tire_change_time@,
        ),
        length_changed == (final(schedule_rows).len() != old(schedule_rows).len()),
{
    let ghost old_rows = schedule_rows@;
    let old_len = schedule_rows.len();
    let index = update_row_index;
    let (k, is_schedule_complete) = replan_existing_rows(
        schedule_rows,
        index,
        config,
        fuel_stint_times,
        tire_change_time,
    );
    let ghost mid = schedule_rows@;
    let ghost e = config.race_end_utc@;
    let ghost o = config.tod_offset@;
    let ghost a = old_rows[index as int].actual_end@;
    let ghost b = old_rows[index as int].utc_end@;
    let ghost lo = min3(a, b, e);
    let ghost hi = max3(a, b, e);
    if is_schedule_complete {
        schedule_rows.truncate(k + 1);
        proof {
            let rows = schedule_rows@;
            assert forall|j: int| index < j < rows.len() && j < old_rows.len() implies #[trigger] replanned_at(
                old_rows,
                rows,
                j,
                o,
                *fuel_stint_times,
                e,
                tire_change_time@,
            ) by {
                assert(replanned_at(old_rows, mid, j, o, *fuel_stint_times, e, tire_change_time@));
                assert(rows[j] == mid[j]);
                assert(rows[j - 1] == mid[j - 1]);
            }
            assert forall|j: int| index <= j < rows.len() - 1 implies (#[trigger] rows[j]).utc_end@ < e by {
                assert(rows[j] == mid[j]);
            }
            assert(rows.last() == mid[k as int]);
        }
    } else {
        let _ = config.race_end_utc.as_nanos();
        let _ = schedule_rows[index].utc_end.as_nanos();
        let _ = schedule_rows[index].actual_end.as_nanos();
        proof {
            reveal(replannable);
            reveal(replannable_with);
            if k > index {
                assert(replanned_at(old_rows, mid, k as int, o, *fuel_stint_times, e, tire_change_time@));
                lemma_replanned_facts(
                    old_rows[k as int],
                    mid[k as int],
                    mid[k - 1].actual_end@,
                    mid[k - 1].actual_end@ + o,
                    mid[k - 1].driver_name@,
                    mid[k - 1].stint_number as int,
                    *fuel_stint_times,
                    e,
                    tire_change_time@,
                );
            }
            assert(mid.last() == mid[k as int]);
        }
        extend_schedule(
            schedule_rows,
            config,
            fuel_stint_times,
            tire_change_time,
            Ghost(lo),
            Ghost(hi),
        );
        proof {
            let rows = schedule_rows@;
            assert forall|j: int| index < j < rows.len() && j < old_rows.len() implies #[trigger] replanned_at(
                old_rows,
                rows,
                j,
                o,
                *fuel_stint_times,
                e,
                tire_change_time@,
            ) by {
                assert(replanned_at(old_rows, mid, j, o, *fuel_stint_times, e, tire_change_time@));
                assert(rows[j] == mid[j]);
                assert(rows[j - 1] == mid[j - 1]);
            }
            assert forall|j: int| index <= j < rows.len() - 1 implies (#[trigger] rows[j]).utc_end@ < e by {
                if j < k {
                    assert(rows[j] == mid[j]);
                }
            }
        }
    }
    proof {
        reveal(replannable);
        reveal(replannable_with);
    }
    old_len != schedule_rows.len()
}

/// How long a full stint of type `t` takes, its tire change included.
fn full_stint_length(t: StintType, times: &FuelStintAverageTimes, tire: Duration) -> (n: i128)
    ensures
        n == full_stint_nanos(t, *times, tire@),
{
    let data = match t {
        StintType::FuelSavingNoTires | StintType::FuelSavingWithTires => times.fuel_saving_stint,
        StintType::StandardNoTires | StintType::StandardWithTires => times.standard_fuel_stint,
    };
    let base = data.track_time_with_pit.as_nanos();
    match t {
        StintType::FuelSavingWithTires | StintType::StandardWithTires => base + tire.as_nanos(),
        StintType::FuelSavingNoTires | StintType::StandardNoTires => base,
    }
}

fn fits_instant(n: i128) -> (b: bool)
    ensures
        b == instant_in_range(n as int),
{
    Instant::from_nanos(n).is_some()
}

fn fits_duration(n: i128) -> (b: bool)
    ensures
        b == duration_in_range(n as int),
{
    Duration::from_nanos(n).is_some()
}

/// Whether a stint of type `t` can be planned from `utc_start` and
/// `tod_start`.
pub fn can_plan_from(
    utc_start: Instant,
    tod_start: Instant,
    t: StintType,
    times: &FuelStintAverageTimes,
    race_end: Instant,
    tire: Duration,
) -> (b: bool)
    ensures
        b == plannable_from(utc_start@, tod_start@, t, *times, race_end@, tire@),
{
    reveal(plannable_from);
    let full = full_stint_length(t, times, tire);
    if !fits_duration(full) {
        return false;
    }
    let s = utc_start.as_nanos();
    if !fits_instant(s + full) {
        return false;
    }
    let e = race_end.as_nanos();
    let d = if s + full > e {
        e - s
    } else {
        full
    };
    fits_instant(tod_start.as_nanos() + d)
}

/// Whether the schedule can be built for `config`, `times` and a tire change
/// of `tire`.
pub fn can_build_schedule(config: &EventConfigData, times: &FuelStintAverageTimes, tire: Duration) -> (b: bool)
    ensures
        b == schedule_plannable(*config, *times, tire@),
{
    let s = config.race_start_utc.as_nanos();
    let t0 = config.race_start_tod.as_nanos();
    let e = config.race_end_utc.as_nanos();
    let d0 = times.fuel_saving_stint.track_time_with_pit.as_nanos();
    let step = full_stint_length(StintType::FuelSavingWithTires, times, tire);
    if !fits_instant(s + d0) || !fits_instant(t0 + d0) {
        return false;
    }
    if s + d0 < e {
        if step <= 0 || !fits_duration(step) || !fits_instant(e + step) || !fits_instant(t0 + (e - s)) {
            return false;
        }
        proof {
            assert(0 <= step * (i32::MAX - 2) <= MAX_DURATION_NANOS * (i32::MAX - 2)) by (nonlinear_arith)
                requires
                    0 < step <= MAX_DURATION_NANOS,
            ;
        }
        e - (s + d0) <= step * (i32::MAX as i128 - 2)
    } else {
        true
    }
}

/// Whether planning the stints from row `from` on again, the first from
/// `start`, reaches the race's end `e`.
fn reaches_race_end(
    rows: &Vec<ScheduleDataRow>,
    from: usize,
    start: i128,
    times: &FuelStintAverageTimes,
    tire: Duration,
    e: i128,
) -> (r: bool)
    requires
        full_stints_nonnegative(*times, tire@),
        instant_in_range(start as int),
        instant_in_range(e as int),
    ensures
        r == reaches_end(rows@, from as int, start as int, *times, e as int, tire@),
{
    let ghost lo = if start <= e {
        start as int
    } else {
        e as int
    };
    let ghost hi = if start <= e {
        e as int
    } else {
        start as int
    };
    let mut j = from;
    let mut s = start;
    while j < rows.len()
        invariant
            from <= j,
            full_stints_nonnegative(*times, tire@),
            instant_in_range(lo),
            instant_in_range(hi),
            lo <= s <= hi,
            lo <= e <= hi,
            reaches_end(rows@, from as int, start as int, *times, e as int, tire@) == reaches_end(
                rows@,
                j as int,
                s as int,
                *times,
                e as int,
                tire@,
            ),
        decreases rows.len() - j,
    {
        let t = rows[j].stint_type;
        proof {
            lemma_full_stint_bounds(t, *times, tire@);
        }
        let full = full_stint_length(t, times, tire);
        let end = if s + full > e {
            e
        } else {
            s + full
        };
        if end >= e {
            return true;
        }
        s = end;
        j = j + 1;
    }
    false
}

/// A full stint of any type takes no negative time and can be represented,
/// where that holds of all four types.
proof fn lemma_full_stint_bounds(t: StintType, times: FuelStintAverageTimes, tire: int)
    requires
        full_stints_nonnegative(times, tire),
    ensures
        0 <= full_stint_nanos(t, times, tire),
        duration_in_range(full_stint_nanos(t, times, tire)),
{
    reveal(full_stints_nonnegative);
    match t {
        StintType::FuelSavingNoTires => {},
        StintType::FuelSavingWithTires => {},
        StintType::StandardNoTires => {},
        StintType::StandardWithTires => {},
    }
}

/// Whether the stints after row `index` of `rows` can be planned again once
/// that row ends at `actual_end` (actually) and `utc_end` (as planned), at
/// `tod_end` in time of day, with stint number `stint_number`.
pub fn can_replan(
    rows: &Vec<ScheduleDataRow>,
    index: usize,
    actual_end: Instant,
    utc_end: Instant,
    tod_end: Instant,
    stint_number: i32,
    config: &EventConfigData,
    times: &FuelStintAverageTimes,
    tire: Duration,
) -> (b: bool)
    ensures
        b == replannable_with(
            rows@,
            index as int,
            actual_end@,
            utc_end@,
            tod_end@,
            stint_number as int,
            *config,
            *times,
            tire@,
        ),
{
    reveal(replannable_with);
    reveal(full_stints_nonnegative);
    reveal(longest_full_stint);
    if index >= rows.len() {
        return false;
    }
    let e = config.race_end_utc.as_nanos();
    let o = config.tod_offset.as_nanos();
    let a = actual_end.as_nanos();
    let b = utc_end.as_nanos();
    let lo = if a <= b && a <= e {
        a
    } else if b <= e {
        b
    } else {
        e
    };
    let hi = if a >= b && a >= e {
        a
    } else if b >= e {
        b
    } else {
        e
    };
    let f0 = full_stint_length(StintType::FuelSavingNoTires, times, tire);
    let f1 = full_stint_length(StintType::FuelSavingWithTires, times, tire);
    let f2 = full_stint_length(StintType::StandardNoTires, times, tire);
    let f3 = full_stint_length(StintType::StandardWithTires, times, tire);
    if f0 < 0 || f1 < 0 || f2 < 0 || f3 < 0 {
        return false;
    }
    if !fits_duration(f0) || !fits_duration(f1) || !fits_duration(f2) || !fits_duration(f3) {
        return false;
    }
    let step = f1;
    let m01 = if f0 >= f1 {
        f0
    } else {
        f1
    };
    let m23 = if f2 >= f3 {
        f2
    } else {
        f3
    };
    let longest = if m01 >= m23 {
        m01
    } else {
        m23
    };
    if !fits_instant(hi + longest) || !fits_instant(lo + o) || !fits_instant(hi + o) {
        return false;
    }
    if b < e && !reaches_race_end(rows, index + 1, a, times, tire, e) {
        if step <= 0 {
            return false;
        }
        let last_number = rows[rows.len() - 1].fuel_stint_number as i128;
        if last_number > i32::MAX as i128 - 2 {
            return false;
        }
        proof {
            assert(0 <= step * (i32::MAX - 2 - last_number) <= MAX_DURATION_NANOS * (i32::MAX as int
                - 2 - i32::MIN as int)) by (nonlinear_arith)
                requires
                    0 < step <= MAX_DURATION_NANOS,
                    i32::MIN <= last_number <= i32::MAX - 2,
            ;
        }
        if e - lo > step * (i32::MAX as i128 - 2 - last_number) {
            return false;
        }
    }
    let first: i128 = if stint_number >= 1 {
        stint_number as i128
    } else {
        1
    };
    if first + rows.len() as i128 > i32::MAX as i128 {
        return false;
    }
    if index == rows.len() - 1 {
        let c = tod_end.as_nanos() - b;
        fits_instant(lo + c) && fits_instant(hi + c)
    } else {
        true
    }
}

/// A stint that starts no later than the race's end never runs past it.
pub proof fn lemma_stint_never_overruns(
    start: int,
    t: StintType,
    times: FuelStintAverageTimes,
    tire: int,
    race_end: int,
)
    requires
        start <= race_end,
    ensures
        start + planned_stint_nanos(start, t, times, tire, race_end) <= race_end,
{
}

/// In a built schedule each stint starts, in UTC and in time of day, where
/// the one before was planned to end, and the fuel stints are numbered 1, 2,
/// 3 and so on.
pub proof fn lemma_built_schedule_is_contiguous(
    rows: Seq<ScheduleDataRow>,
    config: EventConfigData,
    times: FuelStintAverageTimes,
    tire: int,
    j: int,
)
    requires
        is_built_schedule(rows, config, times, tire),
        0 <= j < rows.len(),
    ensures
        rows[j].fuel_stint_number == j + 1,
        j > 0 ==> rows[j].utc_start@ == rows[j - 1].utc_end@,
        j > 0 ==> rows[j].tod_start@ == rows[j - 1].tod_end@,
    decreases j,
{
    if j > 0 {
        lemma_built_schedule_is_contiguous(rows, config, times, tire, j - 1);
        assert(follows_at(rows, j, times, config.race_end_utc@, tire));
        lemma_follows_facts(
            rows[j - 1],
            rows[j],
            StintType::FuelSavingWithTires,
            times,
            config.race_end_utc@,
            tire,
        );
    }
}

/// In a built schedule every stint shows the time of day that is as far
/// from the race's start time of day as its UTC time is from the green flag.
pub proof fn lemma_built_schedule_keeps_time_of_day(
    rows: Seq<ScheduleDataRow>,
    config: EventConfigData,
    times: FuelStintAverageTimes,
    tire: int,
    j: int,
)
    requires
        is_built_schedule(rows, config, times, tire),
        0 <= j < rows.len(),
    ensures
        rows[j].tod_start@ - rows[j].utc_start@ == config.race_start_tod@
            - config.race_start_utc@,
        rows[j].tod_end@ - rows[j].utc_end@ == config.race_start_tod@ - config.race_start_utc@,
    decreases j,
{
    if j > 0 {
        lemma_built_schedule_keeps_time_of_day(rows, config, times, tire, j - 1);
        assert(follows_at(rows, j, times, config.race_end_utc@, tire));
        lemma_follows_facts(
            rows[j - 1],
            rows[j],
            StintType::FuelSavingWithTires,
            times,
            config.race_end_utc@,
            tire,
        );
    }
}

/// A built schedule of more than one stint ends exactly when the race ends.
pub proof fn lemma_built_schedule_ends_with_race(
    rows: Seq<ScheduleDataRow>,
    config: EventConfigData,
    times: FuelStintAverageTimes,
    tire: int,
)
    requires
        is_built_schedule(rows, config, times, tire),
        rows.len() >= 2,
    ensures
        rows.last().utc_end@ == config.race_end_utc@,
{
    let n = rows.len() - 1;
    assert(follows_at(rows, n as int, times, config.race_end_utc@, tire));
    lemma_follows_facts(
        rows[n - 1],
        rows[n as int],
        StintType::FuelSavingWithTires,
        times,
        config.race_end_utc@,
        tire,
    );
    assert(rows[n - 1].utc_end@ < config.race_end_utc@);
    lemma_stint_never_overruns(
        rows[n - 1].utc_end@,
        StintType::FuelSavingWithTires,
        times,
        tire,
        config.race_end_utc@,
    );
}

/// After replanning from row `index`, every later stint starts at the
/// actual end of the one before (a replanned one) or at its planned end (an
/// added one), and the schedule ends exactly when the race ends unless only
/// row `index` is left.
pub proof fn lemma_replanned_schedule_ends_with_race(
    old_rows: Seq<ScheduleDataRow>,
    rows: Seq<ScheduleDataRow>,
    index: int,
    config: EventConfigData,
    times: FuelStintAverageTimes,
    tire: int,
)
    requires
        is_replanned_schedule(old_rows, rows, index, config, times, tire),
        index < rows.len() - 1,
        rows[rows.len() - 2].actual_end == rows[rows.len() - 2].utc_end || rows.len() - 1
            >= old_rows.len(),
    ensures
        rows.last().utc_end@ == config.race_end_utc@,
{
    let n = rows.len() - 1;
    let e = config.race_end_utc@;
    assert(rows[n - 1].utc_end@ < e);
    if n < old_rows.len() {
        assert(replanned_at(old_rows, rows, n as int, config.tod_offset@, times, e, tire));
        lemma_replanned_facts(
            old_rows[n as int],
            rows[n as int],
            rows[n - 1].actual_end@,
            rows[n - 1].actual_end@ + config.tod_offset@,
            rows[n - 1].driver_name@,
            rows[n - 1].stint_number as int,
            times,
            e,
            tire,
        );
        lemma_stint_never_overruns(rows[n - 1].actual_end@, old_rows[n as int].stint_type, times, tire, e);
    } else {
        assert(follows_at(rows, n as int, times, e, tire));
        lemma_follows_facts(rows[n - 1], rows[n as int], StintType::FuelSavingWithTires, times, e, tire);
        lemma_stint_never_overruns(rows[n - 1].utc_end@, StintType::FuelSavingWithTires, times, tire, e);
    }
}

/// The fuel stints of `rows` are numbered 1, 2, 3 and so on.
pub open spec fn numbered(rows: Seq<ScheduleDataRow>) -> bool {
    forall|j: int| 0 <= j < rows.len() ==> (#[trigger] rows[j]).fuel_stint_number == j + 1
}

proof fn lemma_replanned_row_numbered(
    old_rows: Seq<ScheduleDataRow>,
    rows: Seq<ScheduleDataRow>,
    index: int,
    config: EventConfigData,
    times: FuelStintAverageTimes,
    tire: int,
    j: int,
)
    requires
        is_replanned_schedule(old_rows, rows, index, config, times, tire),
        numbered(old_rows),
        0 <= index < old_rows.len(),
        0 <= j < rows.len(),
    ensures
        rows[j].fuel_stint_number == j + 1,
    decreases j,
{
    let e = config.race_end_utc@;
    let o = config.tod_offset@;
    if j <= index {
        assert(rows[j] == old_rows[j]);
    } else if j < old_rows.len() {
        assert(replanned_at(old_rows, rows, j, o, times, e, tire));
        lemma_replanned_facts(
            old_rows[j],
            rows[j],
            rows[j - 1].actual_end@,
            rows[j - 1].actual_end@ + o,
            rows[j - 1].driver_name@,
            rows[j - 1].stint_number as int,
            times,
            e,
            tire,
        );
        assert(old_rows[j].fuel_stint_number == j + 1);
    } else {
        assert(follows_at(rows, j, times, e, tire));
        lemma_follows_facts(rows[j - 1], rows[j], StintType::FuelSavingWithTires, times, e, tire);
        lemma_replanned_row_numbered(old_rows, rows, index, config, times, tire, j - 1);
    }
}

/// Planning a schedule again keeps its fuel stints numbered 1, 2, 3 and so
/// on: replanned stints keep their numbers and added ones follow on.
pub proof fn lemma_replanned_schedule_is_numbered(
    old_rows: Seq<ScheduleDataRow>,
    rows: Seq<ScheduleDataRow>,
    index: int,
    config: EventConfigData,
    times: FuelStintAverageTimes,
    tire: int,
)
    requires
        is_replanned_schedule(old_rows, rows, index, config, times, tire),
        numbered(old_rows),
        0 <= index < old_rows.len(),
    ensures
        numbered(rows),
{
    assert forall|j: int| 0 <= j < rows.len() implies (#[trigger] rows[j]).fuel_stint_number == j + 1 by {
        lemma_replanned_row_numbered(old_rows, rows, index, config, times, tire, j);
    }
}

} // verus!
