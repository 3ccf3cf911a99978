//! The card of average fuel stints: the standard stint and the fuel-saving
//! one, each with its lap time and how many laps a tank lasts.
//!
//! How many laps a tank lasts follows from the fuel used per lap, which is
//! read and divided as a floating-point number by the caller; the card takes
//! the lap count it gives.

use crate::duration_text::{parse_duration_from_str, parse_duration_result, DurationFormat, DurationParseError};
use crate::stint::{stint_fits, stint_representable, FuelStintAverageTimes, StintData};
use crate::time::{duration_in_range, trunc_div, Duration, NANOS_PER_MILLI};
use vstd::prelude::*;

verus! {

/// Which of the two average stints an edit is for.
#[derive(Clone, Copy, Debug, PartialEq, Eq, Structural)]
pub enum StintType {
    Standard,
    FuelSaving,
}

/// The edits of the fuel stint card.
pub enum FuelStintTimesMsg {
    /// A lap time was typed in, as `MM:SS.mmm`.
    UpdateLapTime(String, StintType),
    /// The laps a tank lasts were worked out again from the fuel per lap.
    UpdateLapCount(i32, StintType),
    /// The stored average stints.
    OnCreate(FuelStintAverageTimes),
}

/// Why an edit of the fuel stint card was not taken.
#[derive(Clone, Copy, Debug, PartialEq, Eq, Structural)]
pub enum FuelStintTimesError {
    /// The lap time could not be read.
    LapTime(DurationParseError),
    /// A stint's figures would not fit the representable range.
    OutOfRange,
}

/// The fuel stint card's state.
#[derive(Clone, Copy, Debug, PartialEq, Eq, Structural)]
pub struct FuelStintTimes {
    pub standard_fuel_stint: StintData,
    pub fuel_saving_stint: StintData,
}

/// The lap time of the fuel-saving stint that a standard lap of
/// `standard_nanos` suggests, in whole milliseconds: one per cent longer
/// than the standard lap's whole milliseconds, rounded down, and held at
/// `i64::MAX` milliseconds; `None` when it falls below the shortest
/// duration.
pub open spec fn fuel_saving_lap_millis(standard_nanos: int) -> Option<int> {
    let ms = trunc_div(standard_nanos, NANOS_PER_MILLI as int);
    let slower = (ms * 101) / 100;
    if slower > i64::MAX {
        Some(i64::MAX as int)
    } else if slower >= -i64::MAX {
        Some(slower)
    } else {
        None
    }
}

/// The lap time of the fuel-saving stint that a standard lap of `lap_time`
/// suggests; see `fuel_saving_lap_millis`.
pub fn fuel_saving_lap_time(lap_time: Duration) -> (d: Option<Duration>)
    ensures
        match fuel_saving_lap_millis(lap_time@) {
            Some(ms) => d matches Some(d) && d@ == ms * NANOS_PER_MILLI,
            None => d is None,
        },
{
    let ms = lap_time.num_milliseconds() as i128;
    let x = ms * 101;
    let slower = if x >= 0 {
        x / 100
    } else {
        let up = (-x + 99) / 100;
        assert(-up == x / 100) by (nonlinear_arith)
            requires
                x < 0,
                up == (-x + 99) / 100,
        ;
        -up
    };
    if slower > i64::MAX as i128 {
        Some(Duration::milliseconds(i64::MAX))
    } else if slower >= -(i64::MAX as i128) {
        Some(Duration::milliseconds(slower as i64))
    } else {
        None
    }
}

/// `next` is `stint` with lap time `lap_time` and its figures worked out
/// again for a pit stop of `pit`.
pub open spec fn with_lap_time(stint: StintData, next: StintData, lap_time: int, pit: int) -> bool {
    &&& next.lap_time@ == lap_time
    &&& next.lap_count == stint.lap_count
    &&& next.consistent_with(pit)
}

/// `next` is `stint` lasting `lap_count` laps, its figures worked out again
/// for a pit stop of `pit`.
pub open spec fn with_lap_count(stint: StintData, next: StintData, lap_count: int, pit: int) -> bool {
    &&& next.lap_time == stint.lap_time
    &&& next.lap_count == lap_count
    &&& next.consistent_with(pit)
}

/// The outcome of typing `text` as the lap time of the `kind` stint of `s`,
/// with a pit stop of `pit`. A standard lap time also sets the fuel-saving
/// lap time it suggests.
pub open spec fn lap_time_outcome(
    s: FuelStintTimes,
    next: FuelStintTimes,
    text: Seq<char>,
    kind: StintType,
    pit: int,
    r: Result<bool, FuelStintTimesError>,
) -> bool {
    match parse_duration_result(text, DurationFormat::MinSecMilli) {
        Err(e) => r == Err::<bool, FuelStintTimesError>(FuelStintTimesError::LapTime(e)),
        Ok(lap) => match kind {
            StintType::Standard => {
                let standard = s.standard_fuel_stint;
                let saving = s.fuel_saving_stint;
                match fuel_saving_lap_millis(lap) {
                    Some(ms) => {
                        let saving_lap = ms * NANOS_PER_MILLI;
                        if stint_representable(lap, standard.lap_count as int, pit)
                            && stint_representable(saving_lap, saving.lap_count as int, pit) {
                            &&& r == Ok::<bool, FuelStintTimesError>(true)
                            &&& with_lap_time(standard, next.standard_fuel_stint, lap, pit)
                            &&& with_lap_time(saving, next.fuel_saving_stint, saving_lap, pit)
                        } else {
                            r == Err::<bool, FuelStintTimesError>(FuelStintTimesError::OutOfRange)
                        }
                    },
                    None => r == Err::<bool, FuelStintTimesError>(FuelStintTimesError::OutOfRange),
                }
            },
            StintType::FuelSaving => {
                let saving = s.fuel_saving_stint;
                if stint_representable(lap, saving.lap_count as int, pit) {
                    &&& r == Ok::<bool, FuelStintTimesError>(true)
                    &&& next.standard_fuel_stint == s.standard_fuel_stint
                    &&& with_lap_time(saving, next.fuel_saving_stint, lap, pit)
                } else {
                    r == Err::<bool, FuelStintTimesError>(FuelStintTimesError::OutOfRange)
                }
            },
        },
    }
}

/// The outcome of setting the laps that a tank lasts in the `kind` stint of
/// `s` to `lap_count`, with a pit stop of `pit`.
pub open spec fn lap_count_outcome(
    s: FuelStintTimes,
    next: FuelStintTimes,
    lap_count: int,
    kind: StintType,
    pit: int,
    r: Result<bool, FuelStintTimesError>,
) -> bool {
    let stint = match kind {
        StintType::Standard => s.standard_fuel_stint,
        StintType::FuelSaving => s.fuel_saving_stint,
    };
    if stint_representable(stint.lap_time@, lap_count, pit) {
        &&& r == Ok::<bool, FuelStintTimesError>(true)
        &&& match kind {
            StintType::Standard => {
                &&& with_lap_count(stint, next.standard_fuel_stint, lap_count, pit)
                &&& next.fuel_saving_stint == s.fuel_saving_stint
            },
            StintType::FuelSaving => {
                &&& with_lap_count(stint, next.fuel_saving_stint, lap_count, pit)
                &&& next.standard_fuel_stint == s.standard_fuel_stint
            },
        }
    } else {
        r == Err::<bool, FuelStintTimesError>(FuelStintTimesError::OutOfRange)
    }
}

impl FuelStintTimes {
    /// A card whose stints have no laps and no time.
    pub fn new() -> (t: FuelStintTimes)
        ensures
            t.standard_fuel_stint == StintData::new_spec(),
            t.fuel_saving_stint == StintData::new_spec(),
    {
        FuelStintTimes { standard_fuel_stint: StintData::new(), fuel_saving_stint: StintData::new() }
    }

    /// Takes an edit with a pit stop of `pit`. `Ok(true)` when the card took
    /// it; `Err`, with the card as it was, when the lap time cannot be read
    /// or the stint's figures would not fit.
    pub fn update(&mut self, msg: FuelStintTimesMsg, pit: Duration) -> (r: Result<bool, FuelStintTimesError>)
        ensures
            r is Err ==> *final(self) == *old(self),
            match msg {
                FuelStintTimesMsg::UpdateLapTime(text, kind) => lap_time_outcome(
                    *old(self),
                    *final(self),
                    text@,
                    kind,
                    pit@,
                    r,
                ),
                FuelStintTimesMsg::UpdateLapCount(lap_count, kind) => lap_count_outcome(
                    *old(self),
                    *final(self),
                    lap_count as int,
                    kind,
                    pit@,
                    r,
                ),
                FuelStintTimesMsg::OnCreate(times) => {
                    &&& r == Ok::<bool, FuelStintTimesError>(true)
                    &&& final(self).standard_fuel_stint == times.standard_fuel_stint
                    &&& final(self).fuel_saving_stint == times.fuel_saving_stint
                },
            },
    {
        match msg {
            FuelStintTimesMsg::UpdateLapTime(text, kind) => {
                let lap = match parse_duration_from_str(text.as_str(), DurationFormat::MinSecMilli) {
                    Ok(lap) => lap,
                    Err(e) => {
                        return Err(FuelStintTimesError::LapTime(e));
                    },
                };
                match kind {
                    StintType::Standard => {
                        let saving_lap = match fuel_saving_lap_time(lap) {
                            Some(d) => d,
                            None => {
                                return Err(FuelStintTimesError::OutOfRange);
                            },
                        };
                        if !stint_fits(lap, self.standard_fuel_stint.lap_count, pit) || !stint_fits(
                            saving_lap,
                            self.fuel_saving_stint.lap_count,
                            pit,
                        ) {
                            return Err(FuelStintTimesError::OutOfRange);
                        }
                        let mut standard = self.standard_fuel_stint;
                        standard.update_lap_time(lap, pit);
                        let mut saving = self.fuel_saving_stint;
                        saving.update_lap_time(saving_lap, pit);
                        self.standard_fuel_stint = standard;
                        self.fuel_saving_stint = saving;
                        Ok(true)
                    },
                    StintType::FuelSaving => {
                        if !stint_fits(lap, self.fuel_saving_stint.lap_count, pit) {
                            return Err(FuelStintTimesError::OutOfRange);
                        }
                        let mut saving = self.fuel_saving_stint;
                        saving.update_lap_time(lap, pit);
                        self.fuel_saving_stint = saving;
                        Ok(true)
                    },
                }
            },
            FuelStintTimesMsg::UpdateLapCount(lap_count, kind) => {
                let mut stint = match kind {
                    StintType::Standard => self.standard_fuel_stint,
                    StintType::FuelSaving => self.fuel_saving_stint,
                };
                if !stint_fits(stint.lap_time, lap_count, pit) {
                    return Err(FuelStintTimesError::OutOfRange);
                }
                stint.update_lap_count(lap_count, pit);
                match kind {
                    StintType::Standard => self.standard_fuel_stint = stint,
                    StintType::FuelSaving => self.fuel_saving_stint = stint,
                }
                Ok(true)
            },
            FuelStintTimesMsg::OnCreate(times) => {
                self.standard_fuel_stint = times.standard_fuel_stint;
                self.fuel_saving_stint = times.fuel_saving_stint;
                Ok(true)
            },
        }
    }

    /// Works both stints out again once the pit stop is `pit` and the laps a
    /// tank lasts are `standard_lap_count` and `fuel_saving_lap_count`: each
    /// first with its lap count as it was, then with the new one. `false`,
    /// with the card as it was, when a stint's figures would not fit.
    pub fn changed(&mut self, standard_lap_count: i32, fuel_saving_lap_count: i32, pit: Duration) -> (ok: bool)
        ensures
            ok == (stint_representable(
                old(self).standard_fuel_stint.lap_time@,
                old(self).standard_fuel_stint.lap_count as int,
                pit@,
            ) && stint_representable(
                old(self).standard_fuel_stint.lap_time@,
                standard_lap_count as int,
                pit@,
            ) && stint_representable(
                old(self).fuel_saving_stint.lap_time@,
                old(self).fuel_saving_stint.lap_count as int,
                pit@,
            ) && stint_representable(
                old(self).fuel_saving_stint.lap_time@,
                fuel_saving_lap_count as int,
                pit@,
            )),
            ok ==> with_lap_count(
                old(self).standard_fuel_stint,
                final(self).standard_fuel_stint,
                standard_lap_count as int,
                pit@,
            ),
            ok ==> with_lap_count(
                old(self).fuel_saving_stint,
                final(self).fuel_saving_stint,
                fuel_saving_lap_count as int,
                pit@,
            ),
            !ok ==> *final(self) == *old(self),
    {
        let standard = self.standard_fuel_stint;
        let saving = self.fuel_saving_stint;
        if !stint_fits(standard.lap_time, standard.lap_count, pit) || !stint_fits(
            standard.lap_time,
            standard_lap_count,
            pit,
        ) || !stint_fits(saving.lap_time, saving.lap_count, pit) || !stint_fits(
            saving.lap_time,
            fuel_saving_lap_count,
            pit,
        ) {
            return false;
        }
        let mut standard = standard;
        standard.update(standard_lap_count, pit);
        let mut saving = saving;
        saving.update(fuel_saving_lap_count, pit);
        self.standard_fuel_stint = standard;
        self.fuel_saving_stint = saving;
        true
    }
}

} // verus!
