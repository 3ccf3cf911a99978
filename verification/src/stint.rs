//! Average fuel stints: how long a stint on one tank lasts, with and without
//! the pit stop that ends it.

use crate::time::{divided_nanos, duration_in_range, Duration, MAX_DURATION_NANOS};
use vstd::prelude::*;

verus! {

/// The timing of an average fuel stint. The fuel figures that decide
/// `lap_count` are kept by the caller; this holds what follows from it.
#[derive(Clone, Copy, Debug, PartialEq, Eq, Structural)]
pub struct StintData {
    pub lap_time: Duration,
    pub lap_count: i32,
    pub lap_time_with_pit: Duration,
    pub track_time: Duration,
    pub track_time_with_pit: Duration,
}

/// A lap's share of the pit stop added to the lap time; nothing when the
/// stint has no laps.
pub open spec fn lap_time_with_pit_nanos(lap_time: int, lap_count: int, pit: int) -> int {
    if lap_count == 0 {
        0
    } else {
        lap_time + divided_nanos(pit, lap_count)
    }
}

/// The figures of a stint of `lap_count` laps of `lap_time`, ended by a pit
/// stop of `pit`, can all be represented.
pub open spec fn stint_representable(lap_time: int, lap_count: int, pit: int) -> bool {
    &&& duration_in_range(lap_time * lap_count)
    &&& duration_in_range(lap_time * lap_count + pit)
    &&& duration_in_range(lap_time_with_pit_nanos(lap_time, lap_count, pit))
}

impl StintData {
    /// The figures derived from the lap time and lap count agree with a pit
    /// stop of `pit`.
    pub open spec fn consistent_with(self, pit: int) -> bool {
        &&& self.lap_time_with_pit@ == lap_time_with_pit_nanos(
            self.lap_time@,
            self.lap_count as int,
            pit,
        )
        &&& self.track_time@ == self.lap_time@ * self.lap_count
        &&& self.track_time_with_pit@ == self.track_time@ + pit
    }

    /// A stint with no laps and no time.
    pub open spec fn new_spec() -> StintData {
        StintData {
            lap_time: Duration::zero_spec(),
            lap_count: 0,
            lap_time_with_pit: Duration::zero_spec(),
            track_time: Duration::zero_spec(),
            track_time_with_pit: Duration::zero_spec(),
        }
    }

    /// A stint with no laps and no time.
    pub fn new() -> (s: StintData)
        ensures
            s == StintData::new_spec(),
            s.lap_time@ == 0,
            s.lap_count == 0,
            s.lap_time_with_pit@ == 0,
            s.track_time@ == 0,
            s.track_time_with_pit@ == 0,
    {
        StintData {
            lap_time: Duration::zero(),
            lap_count: 0,
            lap_time_with_pit: Duration::zero(),
            track_time: Duration::zero(),
            track_time_with_pit: Duration::zero(),
        }
    }

    fn update_track_time(&mut self, pit_duration: Duration)
        requires
            stint_representable(old(self).lap_time@, old(self).lap_count as int, pit_duration@),
        ensures
            final(self).track_time@ == old(self).lap_time@ * old(self).lap_count,
            final(self).track_time_with_pit@ == final(self).track_time@ + pit_duration@,
            final(self).lap_time == old(self).lap_time,
            final(self).lap_count == old(self).lap_count,
            final(self).lap_time_with_pit == old(self).lap_time_with_pit,
    {
        self.track_time = self.lap_time.mul(self.lap_count);
        self.track_time_with_pit = self.track_time.add(&pit_duration);
    }

    fn update_lap_time_with_pit(&mut self, pit_duration: Duration)
        requires
            stint_representable(old(self).lap_time@, old(self).lap_count as int, pit_duration@),
        ensures
            final(self).lap_time_with_pit@ == lap_time_with_pit_nanos(
                old(self).lap_time@,
                old(self).lap_count as int,
                pit_duration@,
            ),
            final(self).lap_time == old(self).lap_time,
            final(self).lap_count == old(self).lap_count,
            final(self).track_time == old(self).track_time,
            final(self).track_time_with_pit == old(self).track_time_with_pit,
    {
        self.lap_time_with_pit = if self.lap_count == 0 {
            Duration::zero()
        } else {
            let share = pit_duration.div(self.lap_count);
            self.lap_time.add(&share)
        };
    }

    /// Sets the average lap time and works out the rest again for a pit
    /// stop of `pit_duration`.
    pub fn update_lap_time(&mut self, lap_time: Duration, pit_duration: Duration)
        requires
            stint_representable(lap_time@, old(self).lap_count as int, pit_duration@),
        ensures
            final(self).lap_time == lap_time,
            final(self).lap_count == old(self).lap_count,
            final(self).consistent_with(pit_duration@),
    {
        self.lap_time = lap_time;
        self.update_lap_time_with_pit(pit_duration);
        self.update_track_time(pit_duration);
    }

    /// Sets how many laps a tank lasts and works out the rest again for a
    /// pit stop of `pit_duration`.
    pub fn update_lap_count(&mut self, lap_count: i32, pit_duration: Duration)
        requires
            stint_representable(old(self).lap_time@, lap_count as int, pit_duration@),
        ensures
            final(self).lap_time == old(self).lap_time,
            final(self).lap_count == lap_count,
            final(self).consistent_with(pit_duration@),
    {
        self.lap_count = lap_count;
        self.update_lap_time_with_pit(pit_duration);
        self.update_track_time(pit_duration);
    }

    /// Works out the figures again after the lap count changed to
    /// `lap_count` or the pit stop to `pit_duration`: first with the lap
    /// count as it was, then with the new one.
    pub fn update(&mut self, lap_count: i32, pit_duration: Duration)
        requires
            stint_representable(old(self).lap_time@, old(self).lap_count as int, pit_duration@),
            stint_representable(old(self).lap_time@, lap_count as int, pit_duration@),
        ensures
            final(self).lap_time == old(self).lap_time,
            final(self).lap_count == lap_count,
            final(self).consistent_with(pit_duration@),
    {
        let lap_time = self.lap_time;
        self.update_lap_time(lap_time, pit_duration);
        self.update_lap_count(lap_count, pit_duration);
    }
}

/// Whether the figures of a stint of `lap_count` laps of `lap_time`, ended
/// by a pit stop of `pit`, can all be represented.
pub fn stint_fits(lap_time: Duration, lap_count: i32, pit: Duration) -> (b: bool)
    ensures
        b == stint_representable(lap_time@, lap_count as int, pit@),
{
    let lap = lap_time.as_nanos();
    let p = pit.as_nanos();
    proof {
        assert(-MAX_DURATION_NANOS * 2147483648 <= lap * lap_count <= MAX_DURATION_NANOS
            * 2147483648) by (nonlinear_arith)
            requires
                -MAX_DURATION_NANOS <= lap <= MAX_DURATION_NANOS,
                i32::MIN <= lap_count <= i32::MAX,
        ;
    }
    let track = lap * lap_count as i128;
    if Duration::from_nanos(track).is_none() || Duration::from_nanos(track + p).is_none() {
        return false;
    }
    if lap_count == 0 {
        true
    } else {
        let share = pit.div(lap_count);
        Duration::from_nanos(lap + share.as_nanos()).is_some()
    }
}

/// The two average stints that the schedule is built from.
#[derive(Clone, Copy, Debug, PartialEq, Eq, Structural)]
pub struct FuelStintAverageTimes {
    pub standard_fuel_stint: StintData,
    pub fuel_saving_stint: StintData,
}

/// The pit stop and tank settings that every stint shares.
#[derive(Clone, Copy, Debug, PartialEq, Eq, Structural)]
pub struct OverallFuelStintConfigData {
    pub pit_duration: Duration,
    pub fuel_tank_size: i32,
    pub tire_change_time: Duration,
    pub add_tire_time: bool,
}

impl OverallFuelStintConfigData {
    /// No pit time, an empty tank, no tire time.
    pub open spec fn new_spec() -> OverallFuelStintConfigData {
        OverallFuelStintConfigData {
            pit_duration: Duration::zero_spec(),
            fuel_tank_size: 0,
            tire_change_time: Duration::zero_spec(),
            add_tire_time: false,
        }
    }

    /// No pit time, an empty tank, no tire time.
    pub fn new() -> (c: OverallFuelStintConfigData)
        ensures
            c == OverallFuelStintConfigData::new_spec(),
            c.pit_duration@ == 0,
            c.fuel_tank_size == 0,
            c.tire_change_time@ == 0,
            !c.add_tire_time,
    {
        OverallFuelStintConfigData {
            pit_duration: Duration::zero(),
            fuel_tank_size: 0,
            tire_change_time: Duration::zero(),
            add_tire_time: false,
        }
    }
}

} // verus!
