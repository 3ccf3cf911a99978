//! How much slower or faster a lap is at a time of day, or for a driver,
//! than the standard lap.

use crate::duration_text::{parse_duration_from_str, parse_duration_result, DurationFormat};
use crate::roster::{Driver, DriverView};
use crate::time::{duration_in_range, trunc_div, Duration, NANOS_PER_MILLI};
use crate::duration_text::DurationParseError;
use chrono::Timelike;
use vstd::prelude::*;
use vstd::string::*;

verus! {

/// A lap time over a reference lap time, both in whole milliseconds. The
/// planner shows it as the quotient of the two.
#[derive(Clone, Copy, Debug, PartialEq, Eq, Structural)]
pub struct Factor {
    pub numerator: i64,
    pub denominator: i64,
}

/// The whole milliseconds of a duration, rounded toward zero.
pub open spec fn millis_of(nanos: int) -> int {
    trunc_div(nanos, NANOS_PER_MILLI as int)
}

impl Factor {
    /// The factor 1.
    pub fn one() -> (f: Factor)
        ensures
            f.numerator == 1,
            f.denominator == 1,
    {
        Factor { numerator: 1, denominator: 1 }
    }

    /// The factor of a lap of `lap_nanos` against one of `reference_nanos`.
    pub open spec fn from_lap_times_spec(lap_nanos: int, reference_nanos: int) -> Factor {
        Factor {
            numerator: millis_of(lap_nanos) as i64,
            denominator: millis_of(reference_nanos) as i64,
        }
    }

    /// `lap_time` over `reference`, in whole milliseconds.
    pub fn from_lap_times(lap_time: Duration, reference: Duration) -> (f: Factor)
        ensures
            f.numerator == millis_of(lap_time@),
            f.denominator == millis_of(reference@),
            f == Factor::from_lap_times_spec(lap_time@, reference@),
    {
        Factor {
            numerator: lap_time.num_milliseconds(),
            denominator: reference.num_milliseconds(),
        }
    }
}

/// A time of day: seconds since midnight and the nanoseconds past them.
#[derive(Clone, Copy, Debug, PartialEq, Eq, Structural)]
pub struct TimeOfDay {
    pub seconds_from_midnight: u32,
    pub nanosecond: u32,
}

impl TimeOfDay {
    /// `hour:minute:second` exactly.
    pub fn from_hms(hour: u32, minute: u32, second: u32) -> (t: TimeOfDay)
        requires
            hour < 24,
            minute < 60,
            second < 60,
        ensures
            t.seconds_from_midnight == hour * 3600 + minute * 60 + second,
            t.nanosecond == 0,
    {
        TimeOfDay { seconds_from_midnight: hour * 3600 + minute * 60 + second, nanosecond: 0 }
    }
}

/// What `chrono::NaiveTime::parse_from_str(text, format)` gives, as the
/// seconds from midnight and the nanoseconds past them.
pub uninterp spec fn time_of_day_text_value(text: Seq<char>, format: Seq<char>) -> Option<(u32, u32)>;

/// Calls `chrono::NaiveTime::parse_from_str`; the contract claims only that
/// the result is the one `time_of_day_text_value` names for the two texts.
#[verifier::external_body]
pub(crate) fn parse_time_of_day(text: &str, format: &str) -> (r: Option<(u32, u32)>)
    ensures
        r == time_of_day_text_value(text@, format@),
{
    chrono::NaiveTime::parse_from_str(text, format).ok().map(
        |t| (t.num_seconds_from_midnight(), t.nanosecond()),
    )
}

/// What `chrono::NaiveTime::format(format).to_string()` writes for the time
/// of day `secs` seconds and `nanos` nanoseconds after midnight.
pub uninterp spec fn time_of_day_text(secs: int, nanos: int, format: Seq<char>) -> Seq<char>;

/// A time of day that `chrono::NaiveTime` holds: before midnight, with more
/// than a second of nanoseconds only in a leap second.
pub open spec fn valid_time_of_day(secs: int, nanos: int) -> bool {
    &&& 0 <= secs < 86400
    &&& 0 <= nanos < 2_000_000_000
    &&& nanos >= 1_000_000_000 ==> secs % 60 == 59
}

/// Calls `chrono::NaiveTime::from_num_seconds_from_midnight_opt` and then
/// `format` and `to_string`. The time must be one that chrono holds and the
/// format the lap factor table's; the contract claims only that the text is
/// the one `time_of_day_text` names.
#[verifier::external_body]
fn write_time_of_day(secs: u32, nanos: u32, format: &str) -> (s: String)
    requires
        valid_time_of_day(secs as int, nanos as int),
        format@ == TIME_OF_DAY_TIME_FORMAT@,
    ensures
        s@ == time_of_day_text(secs as int, nanos as int, format@),
{
    chrono::NaiveTime::from_num_seconds_from_midnight_opt(secs, nanos).unwrap().format(format).to_string()
}

/// The format of a time of day in the lap factor table: hour on a
/// twelve-hour clock, minutes, and AM or PM.
pub const TIME_OF_DAY_TIME_FORMAT: &'static str = "%I:%M %p";

impl TimeOfDay {
    /// The time of day as the lap factor table shows it, `HH:MM AM`; `None`
    /// when it is no time of day.
    pub fn format(&self) -> (s: Option<String>)
        ensures
            match s {
                Some(text) => valid_time_of_day(
                    self.seconds_from_midnight as int,
                    self.nanosecond as int,
                ) && text@ == time_of_day_text(
                    self.seconds_from_midnight as int,
                    self.nanosecond as int,
                    TIME_OF_DAY_TIME_FORMAT@,
                ),
                None => !valid_time_of_day(self.seconds_from_midnight as int, self.nanosecond as int),
            },
    {
        let secs = self.seconds_from_midnight;
        let nanos = self.nanosecond;
        if secs < 86400 && nanos < 2_000_000_000 && (nanos < 1_000_000_000 || secs % 60 == 59) {
            Some(write_time_of_day(secs, nanos, TIME_OF_DAY_TIME_FORMAT))
        } else {
            None
        }
    }
}

/// A driver's lap time and its factor against the standard lap.
#[derive(Clone, Debug)]
pub struct DriverLapFactor {
    pub driver_name: String,
    pub driver_color: String,
    pub lap_time: Duration,
    pub factor: Factor,
}

impl DriverLapFactor {
    /// A driver with no lap time yet and the factor 1.
    pub fn new(driver_name: String, driver_color: String) -> (f: DriverLapFactor)
        ensures
            f.driver_name@ == driver_name@,
            f.driver_color@ == driver_color@,
            f.lap_time@ == 0,
            f.factor == (Factor { numerator: 1, denominator: 1 }),
    {
        DriverLapFactor {
            driver_name,
            driver_color,
            lap_time: Duration::zero(),
            factor: Factor::one(),
        }
    }

    /// Works out the factor of the driver's lap time against `reference`.
    pub fn compute_factor_from_reference(&mut self, reference: Duration)
        ensures
            final(self).factor.numerator == millis_of(old(self).lap_time@),
            final(self).factor.denominator == millis_of(reference@),
            final(self).lap_time == old(self).lap_time,
            final(self).driver_name == old(self).driver_name,
            final(self).driver_color == old(self).driver_color,
    {
        self.factor = Factor::from_lap_times(self.lap_time, reference);
    }
}

/// A time of day's lap time, how it differs from the reference lap, and
/// whether it was typed in or follows the reference.
#[derive(Clone, Debug)]
pub struct TimeOfDayLapFactor {
    pub time_of_day: String,
    pub lap_time: Duration,
    pub tod_start: TimeOfDay,
    pub delta: Duration,
    pub factor: Factor,
    pub has_edited_lap_time: bool,
}

impl TimeOfDayLapFactor {
    /// A time of day named `time_of_day` from `tod_start`, with the
    /// reference lap time, no delta and the factor 1.
    pub fn new(time_of_day: String, tod_start: TimeOfDay, lap_time: Duration) -> (f: TimeOfDayLapFactor)
        ensures
            f.time_of_day@ == time_of_day@,
            f.tod_start == tod_start,
            f.lap_time == lap_time,
            f.delta@ == 0,
            f.factor == (Factor { numerator: 1, denominator: 1 }),
            !f.has_edited_lap_time,
    {
        TimeOfDayLapFactor {
            time_of_day,
            lap_time,
            tod_start,
            delta: Duration::zero(),
            factor: Factor::one(),
            has_edited_lap_time: false,
        }
    }

    /// Follows the reference lap time, unless a lap time was typed in.
    pub fn set_lap_time_if_unset(&mut self, lap_time: Duration)
        ensures
            final(self).lap_time == if old(self).has_edited_lap_time {
                old(self).lap_time
            } else {
                lap_time
            },
            final(self).has_edited_lap_time == old(self).has_edited_lap_time,
            final(self).delta == old(self).delta,
            final(self).factor == old(self).factor,
            final(self).tod_start == old(self).tod_start,
            final(self).time_of_day == old(self).time_of_day,
    {
        if !self.has_edited_lap_time {
            self.lap_time = lap_time;
        }
    }

    /// Takes a typed-in lap time and works out the factor and the delta
    /// against `reference_lap_time`.
    pub fn update_lap_time(&mut self, lap_time: Duration, reference_lap_time: Duration)
        requires
            duration_in_range(lap_time@ - reference_lap_time@),
        ensures
            final(self).lap_time == lap_time,
            final(self).has_edited_lap_time,
            final(self).factor == Factor::from_lap_times_spec(lap_time@, reference_lap_time@),
            final(self).delta@ == lap_time@ - reference_lap_time@,
            final(self).tod_start == old(self).tod_start,
            final(self).time_of_day == old(self).time_of_day,
    {
        self.lap_time = lap_time;
        self.has_edited_lap_time = true;
        self.compute_factor_and_delta_from_reference(reference_lap_time);
    }

    /// Goes back to the reference lap time: factor 1, no delta.
    pub fn reset_lap_time(&mut self, reference_lap_time: Duration)
        ensures
            final(self).lap_time == reference_lap_time,
            !final(self).has_edited_lap_time,
            final(self).factor == (Factor { numerator: 1, denominator: 1 }),
            final(self).delta@ == 0,
            final(self).tod_start == old(self).tod_start,
            final(self).time_of_day == old(self).time_of_day,
    {
        self.lap_time = reference_lap_time;
        self.has_edited_lap_time = false;
        self.factor = Factor::one();
        self.delta = Duration::zero();
    }

    /// Works out the factor and the delta of the lap time against
    /// `reference`.
    pub fn compute_factor_and_delta_from_reference(&mut self, reference: Duration)
        requires
            duration_in_range(old(self).lap_time@ - reference@),
        ensures
            final(self).factor == Factor::from_lap_times_spec(old(self).lap_time@, reference@),
            final(self).delta@ == old(self).lap_time@ - reference@,
            final(self).lap_time == old(self).lap_time,
            final(self).has_edited_lap_time == old(self).has_edited_lap_time,
            final(self).tod_start == old(self).tod_start,
            final(self).time_of_day == old(self).time_of_day,
    {
        self.factor = Factor::from_lap_times(self.lap_time, reference);
        self.delta = self.lap_time.sub(&reference);
    }
}

/// Why an edit of a lap factor table was not taken.
#[derive(Clone, Copy, Debug, PartialEq, Eq, Structural)]
pub enum LapFactorError {
    /// The lap time could not be read.
    LapTime(DurationParseError),
    /// The lap time is too far from the reference to take their difference.
    LapTimeOutOfRange,
    /// The start time of day could not be read.
    TimeOfDayStart,
}

/// The edits of the time-of-day lap factor table.
pub enum TimeOfDayLapFactorsMsg {
    UpdateLapTime(String, usize),
    UpdateTimeOfDay(String, usize),
    UpdateTimeOfDayStart(String, usize),
    ResetLapTimeToReference(usize),
}

/// The lap factor of each part of the day, against a reference lap time.
pub struct TimeOfDayLapFactors {
    pub factors: Vec<TimeOfDayLapFactor>,
    pub reference_lap_time: Duration,
}

/// The factor's fields that an edit of another field keeps.
pub open spec fn same_factor(a: TimeOfDayLapFactor, b: TimeOfDayLapFactor) -> bool {
    &&& a.time_of_day@ == b.time_of_day@
    &&& a.lap_time == b.lap_time
    &&& a.tod_start == b.tod_start
    &&& a.delta == b.delta
    &&& a.factor == b.factor
    &&& a.has_edited_lap_time == b.has_edited_lap_time
}

impl TimeOfDayLapFactors {
    /// The five parts of a day, Night1 from midnight, Morning from 4:00,
    /// Afternoon from 11:00, Evening from 18:00 and Night2 from 21:00, each
    /// at the reference lap time.
    pub fn create(lap_time: Duration) -> (t: TimeOfDayLapFactors)
        ensures
            t.reference_lap_time == lap_time,
            t.factors.len() == 5,
            t.factors@[0].time_of_day@ == "Night1"@,
            t.factors@[1].time_of_day@ == "Morning"@,
            t.factors@[2].time_of_day@ == "Afternoon"@,
            t.factors@[3].time_of_day@ == "Evening"@,
            t.factors@[4].time_of_day@ == "Night2"@,
            t.factors@[0].tod_start.seconds_from_midnight == 0,
            t.factors@[1].tod_start.seconds_from_midnight == 4 * 3600,
            t.factors@[2].tod_start.seconds_from_midnight == 11 * 3600,
            t.factors@[3].tod_start.seconds_from_midnight == 18 * 3600,
            t.factors@[4].tod_start.seconds_from_midnight == 21 * 3600,
            forall|i: int|
                0 <= i < 5 ==> {
                    &&& (#[trigger] t.factors@[i]).lap_time == lap_time
                    &&& t.factors@[i].tod_start.nanosecond == 0
                    &&& t.factors@[i].delta@ == 0
                    &&& t.factors@[i].factor == (Factor { numerator: 1, denominator: 1 })
                    &&& !t.factors@[i].has_edited_lap_time
                },
    {
        let mut factors: Vec<TimeOfDayLapFactor> = Vec::new();
        factors.push(
            TimeOfDayLapFactor::new(String::from_str("Night1"), TimeOfDay::from_hms(0, 0, 0), lap_time),
        );
        factors.push(
            TimeOfDayLapFactor::new(String::from_str("Morning"), TimeOfDay::from_hms(4, 0, 0), lap_time),
        );
        factors.push(
            TimeOfDayLapFactor::new(
                String::from_str("Afternoon"),
                TimeOfDay::from_hms(11, 0, 0),
                lap_time,
            ),
        );
        factors.push(
            TimeOfDayLapFactor::new(String::from_str("Evening"), TimeOfDay::from_hms(18, 0, 0), lap_time),
        );
        factors.push(
            TimeOfDayLapFactor::new(String::from_str("Night2"), TimeOfDay::from_hms(21, 0, 0), lap_time),
        );
        TimeOfDayLapFactors { factors, reference_lap_time: lap_time }
    }

    /// Takes an edit of the table. `Ok(true)` when the table shows something
    /// new; `Err` where the edit could not be taken, with the table as it
    /// was.
    pub fn update(&mut self, msg: TimeOfDayLapFactorsMsg) -> (r: Result<bool, LapFactorError>)
        requires
            match msg {
                TimeOfDayLapFactorsMsg::UpdateLapTime(_, i) => i < old(self).factors.len(),
                TimeOfDayLapFactorsMsg::UpdateTimeOfDay(_, i) => i < old(self).factors.len(),
                TimeOfDayLapFactorsMsg::UpdateTimeOfDayStart(_, i) => i < old(self).factors.len(),
                TimeOfDayLapFactorsMsg::ResetLapTimeToReference(i) => i < old(self).factors.len(),
            },
        ensures
            final(self).reference_lap_time == old(self).reference_lap_time,
            final(self).factors.len() == old(self).factors.len(),
            match msg {
                TimeOfDayLapFactorsMsg::UpdateLapTime(text, i) => {
                    let reference = old(self).reference_lap_time@;
                    match parse_duration_result(text@, DurationFormat::MinSecMilli) {
                        Ok(lap) => if duration_in_range(lap - reference) {
                            &&& r == Ok::<bool, LapFactorError>(true)
                            &&& final(self).factors@[i as int].lap_time@ == lap
                            &&& final(self).factors@[i as int].has_edited_lap_time
                            &&& final(self).factors@[i as int].delta@ == lap - reference
                            &&& final(self).factors@[i as int].factor
                                == Factor::from_lap_times_spec(lap, reference)
                            &&& final(self).factors@[i as int].time_of_day@
                                == old(self).factors@[i as int].time_of_day@
                            &&& final(self).factors@[i as int].tod_start
                                == old(self).factors@[i as int].tod_start
                            &&& forall|j: int|
                                0 <= j < old(self).factors.len() && j != i ==> same_factor(
                                    #[trigger] final(self).factors@[j],
                                    old(self).factors@[j],
                                )
                        } else {
                            &&& r == Err::<bool, LapFactorError>(LapFactorError::LapTimeOutOfRange)
                            &&& forall|j: int|
                                0 <= j < old(self).factors.len() ==> same_factor(
                                    #[trigger] final(self).factors@[j],
                                    old(self).factors@[j],
                                )
                        },
                        Err(e) => {
                            &&& r == Err::<bool, LapFactorError>(LapFactorError::LapTime(e))
                            &&& forall|j: int|
                                0 <= j < old(self).factors.len() ==> same_factor(
                                    #[trigger] final(self).factors@[j],
                                    old(self).factors@[j],
                                )
                        },
                    }
                },
                TimeOfDayLapFactorsMsg::UpdateTimeOfDay(value, i) => {
                    &&& r == Ok::<bool, LapFactorError>(false)
                    &&& final(self).factors@[i as int].time_of_day@ == value@
                    &&& final(self).factors@[i as int].lap_time == old(self).factors@[i as int].lap_time
                    &&& final(self).factors@[i as int].tod_start == old(self).factors@[i as int].tod_start
                    &&& final(self).factors@[i as int].delta == old(self).factors@[i as int].delta
                    &&& final(self).factors@[i as int].factor == old(self).factors@[i as int].factor
                    &&& final(self).factors@[i as int].has_edited_lap_time
                        == old(self).factors@[i as int].has_edited_lap_time
                    &&& forall|j: int|
                        0 <= j < old(self).factors.len() && j != i ==> same_factor(
                            #[trigger] final(self).factors@[j],
                            old(self).factors@[j],
                        )
                },
                TimeOfDayLapFactorsMsg::UpdateTimeOfDayStart(text, i) => {
                    match time_of_day_text_value(text@, TIME_OF_DAY_TIME_FORMAT@) {
                        Some((secs, nanos)) => {
                            &&& r == Ok::<bool, LapFactorError>(true)
                            &&& final(self).factors@[i as int].tod_start == (TimeOfDay {
                                seconds_from_midnight: secs,
                                nanosecond: nanos,
                            })
                            &&& final(self).factors@[i as int].time_of_day@
                                == old(self).factors@[i as int].time_of_day@
                            &&& final(self).factors@[i as int].lap_time
                                == old(self).factors@[i as int].lap_time
                            &&& final(self).factors@[i as int].delta
                                == old(self).factors@[i as int].delta
                            &&& final(self).factors@[i as int].factor
                                == old(self).factors@[i as int].factor
                            &&& final(self).factors@[i as int].has_edited_lap_time
                                == old(self).factors@[i as int].has_edited_lap_time
                            &&& forall|j: int|
                                0 <= j < old(self).factors.len() && j != i ==> same_factor(
                                    #[trigger] final(self).factors@[j],
                                    old(self).factors@[j],
                                )
                        },
                        None => {
                            &&& r == Err::<bool, LapFactorError>(LapFactorError::TimeOfDayStart)
                            &&& forall|j: int|
                                0 <= j < old(self).factors.len() ==> same_factor(
                                    #[trigger] final(self).factors@[j],
                                    old(self).factors@[j],
                                )
                        },
                    }
                },
                TimeOfDayLapFactorsMsg::ResetLapTimeToReference(i) => {
                    &&& r == Ok::<bool, LapFactorError>(true)
                    &&& final(self).factors@[i as int].lap_time == old(self).reference_lap_time
                    &&& !final(self).factors@[i as int].has_edited_lap_time
                    &&& final(self).factors@[i as int].factor == (Factor {
                        numerator: 1,
                        denominator: 1,
                    })
                    &&& final(self).factors@[i as int].delta@ == 0
                    &&& final(self).factors@[i as int].time_of_day@
                        == old(self).factors@[i as int].time_of_day@
                    &&& final(self).factors@[i as int].tod_start
                        == old(self).factors@[i as int].tod_start
                    &&& forall|j: int|
                        0 <= j < old(self).factors.len() && j != i ==> same_factor(
                            #[trigger] final(self).factors@[j],
                            old(self).factors@[j],
                        )
                },
            },
    {
        let ghost before = self.factors@;
        match msg {
            TimeOfDayLapFactorsMsg::UpdateLapTime(lap_time, index) => {
                match parse_duration_from_str(lap_time.as_str(), DurationFormat::MinSecMilli) {
                    Ok(parsed) => {
                        let lap = parsed.as_nanos();
                        let reference = self.reference_lap_time.as_nanos();
                        match Duration::from_nanos(lap - reference) {
                            Some(_) => {
                                let reference_lap_time = self.reference_lap_time;
                                self.factors[index].update_lap_time(parsed, reference_lap_time);
                                Ok(true)
                            },
                            None => Err(LapFactorError::LapTimeOutOfRange),
                        }
                    },
                    Err(e) => Err(LapFactorError::LapTime(e)),
                }
            },
            TimeOfDayLapFactorsMsg::UpdateTimeOfDay(value, index) => {
                self.factors[index].time_of_day = value;
                Ok(false)
            },
            TimeOfDayLapFactorsMsg::UpdateTimeOfDayStart(value, index) => {
                match parse_time_of_day(value.as_str(), TIME_OF_DAY_TIME_FORMAT) {
                    Some((secs, nanos)) => {
                        self.factors[index].tod_start = TimeOfDay {
                            seconds_from_midnight: secs,
                            nanosecond: nanos,
                        };
                        Ok(true)
                    },
                    None => Err(LapFactorError::TimeOfDayStart),
                }
            },
            TimeOfDayLapFactorsMsg::ResetLapTimeToReference(index) => {
                let reference_lap_time = self.reference_lap_time;
                self.factors[index].reset_lap_time(reference_lap_time);
                Ok(true)
            },
        }
    }

    /// Takes a new reference lap time: parts of the day without a typed-in
    /// lap time follow it, and every factor and delta is worked out again.
    pub fn changed(&mut self, lap_time: Duration)
        requires
            forall|j: int|
                0 <= j < old(self).factors.len() && (#[trigger] old(self).factors@[j]).has_edited_lap_time
                    ==> duration_in_range(old(self).factors@[j].lap_time@ - lap_time@),
        ensures
            final(self).reference_lap_time == lap_time,
            final(self).factors.len() == old(self).factors.len(),
            forall|j: int|
                0 <= j < old(self).factors.len() ==> {
                    let f = #[trigger] final(self).factors@[j];
                    let g = old(self).factors@[j];
                    let lap = if g.has_edited_lap_time {
                        g.lap_time
                    } else {
                        lap_time
                    };
                    &&& f.lap_time == lap
                    &&& f.has_edited_lap_time == g.has_edited_lap_time
                    &&& f.delta@ == lap@ - lap_time@
                    &&& f.factor == Factor::from_lap_times_spec(lap@, lap_time@)
                    &&& f.time_of_day@ == g.time_of_day@
                    &&& f.tod_start == g.tod_start
                },
    {
        self.reference_lap_time = lap_time;
        let ghost before = self.factors@;
        let mut i: usize = 0;
        while i < self.factors.len()
            invariant
                self.reference_lap_time == lap_time,
                self.factors.len() == before.len(),
                i <= before.len(),
                forall|j: int|
                    0 <= j < before.len() && (#[trigger] before[j]).has_edited_lap_time
                        ==> duration_in_range(before[j].lap_time@ - lap_time@),
                forall|j: int| i <= j < before.len() ==> #[trigger] self.factors@[j] == before[j],
                forall|j: int|
                    0 <= j < i ==> {
                        let f = #[trigger] self.factors@[j];
                        let g = before[j];
                        let lap = if g.has_edited_lap_time {
                            g.lap_time
                        } else {
                            lap_time
                        };
                        &&& f.lap_time == lap
                        &&& f.has_edited_lap_time == g.has_edited_lap_time
                        &&& f.delta@ == lap@ - lap_time@
                        &&& f.factor == Factor::from_lap_times_spec(lap@, lap_time@)
                        &&& f.time_of_day@ == g.time_of_day@
                        &&& f.tod_start == g.tod_start
                    },
            decreases before.len() - i,
        {
            assert(self.factors@[i as int] == before[i as int]);
            self.factors[i].set_lap_time_if_unset(lap_time);
            self.factors[i].compute_factor_and_delta_from_reference(lap_time);
            i = i + 1;
        }
    }
}

/// The per-driver lap factor table.
pub struct PerDriverLapFactors {
    pub factors: Vec<DriverLapFactor>,
    pub standard_lap_time: Duration,
}

/// `f` is the fresh factor row of driver `d`: no lap time, factor 1.
pub open spec fn fresh_factor_for(f: DriverLapFactor, d: DriverView) -> bool {
    &&& f.driver_name@ == d.name
    &&& f.driver_color@ == d.color
    &&& f.lap_time@ == 0
    &&& f.factor == (Factor { numerator: 1, denominator: 1 })
}

/// A fresh factor row for every driver of the roster, in order.
pub fn factors_for_drivers(drivers: &Vec<Driver>) -> (factors: Vec<DriverLapFactor>)
    ensures
        factors.len() == drivers.len(),
        forall|j: int| 0 <= j < drivers.len() ==> fresh_factor_for(#[trigger] factors@[j], drivers@[j]@),
{
    let mut factors: Vec<DriverLapFactor> = Vec::new();
    let mut i: usize = 0;
    while i < drivers.len()
        invariant
            i <= drivers.len(),
            factors.len() == i,
            forall|j: int| 0 <= j < i ==> fresh_factor_for(#[trigger] factors@[j], drivers@[j]@),
        decreases drivers.len() - i,
    {
        let driver = &drivers[i];
        factors.push(DriverLapFactor::new(driver.name.clone(), driver.color.clone()));
        i = i + 1;
    }
    factors
}

/// `next` is `t` started again from the roster `drivers`.
pub open spec fn drivers_loaded(t: PerDriverLapFactors, next: PerDriverLapFactors, drivers: Seq<Driver>) -> bool {
    &&& next.standard_lap_time == t.standard_lap_time
    &&& next.factors.len() == drivers.len()
    &&& forall|j: int| 0 <= j < drivers.len() ==> fresh_factor_for(#[trigger] next.factors@[j], drivers[j]@)
}

/// The outcome of typing `text` as the lap time of driver row `index` of
/// `t`: the row takes the lap time and its factor against the standard lap
/// and keeps its driver's name and colour, and the other rows stay as they
/// were; when the text cannot be read, the whole table stays as it was.
pub open spec fn driver_lap_time_outcome(
    t: PerDriverLapFactors,
    next: PerDriverLapFactors,
    text: Seq<char>,
    index: int,
    r: Result<bool, LapFactorError>,
) -> bool {
    match parse_duration_result(text, DurationFormat::MinSecMilli) {
        Ok(lap) => {
            &&& r == Ok::<bool, LapFactorError>(true)
            &&& next.standard_lap_time == t.standard_lap_time
            &&& next.factors.len() == t.factors.len()
            &&& forall|j: int|
                0 <= j < t.factors.len() && j != index ==> #[trigger] next.factors@[j]
                    == t.factors@[j]
            &&& next.factors@[index].lap_time@ == lap
            &&& next.factors@[index].factor == Factor::from_lap_times_spec(lap, t.standard_lap_time@)
            &&& next.factors@[index].driver_name == t.factors@[index].driver_name
            &&& next.factors@[index].driver_color == t.factors@[index].driver_color
        },
        Err(e) => {
            &&& r == Err::<bool, LapFactorError>(LapFactorError::LapTime(e))
            &&& next.standard_lap_time == t.standard_lap_time
            &&& next.factors@ == t.factors@
        },
    }
}

/// The edits of the per-driver lap factor table.
pub enum PerDriverLapFactorsMsg {
    /// The roster changed.
    LoadDrivers(Vec<Driver>),
    /// A driver's lap time was typed in, as `MM:SS.mmm`.
    UpdateDriverLapTime(String, usize),
}

impl PerDriverLapFactors {
    /// A fresh row for each driver, against `lap_time`.
    pub fn create(drivers: &Vec<Driver>, lap_time: Duration) -> (t: PerDriverLapFactors)
        ensures
            t.standard_lap_time == lap_time,
            t.factors.len() == drivers.len(),
            forall|j: int|
                0 <= j < drivers.len() ==> fresh_factor_for(#[trigger] t.factors@[j], drivers@[j]@),
    {
        PerDriverLapFactors { factors: factors_for_drivers(drivers), standard_lap_time: lap_time }
    }

    /// Starts again from the roster `drivers`.
    pub fn load_drivers(&mut self, drivers: &Vec<Driver>) -> (render: bool)
        ensures
            render,
            drivers_loaded(*old(self), *final(self), drivers@),
    {
        self.factors = factors_for_drivers(drivers);
        true
    }

    /// Takes a driver's lap time typed as `MM:SS.mmm` and works out the
    /// driver's factor against the standard lap; the table stays as it was
    /// when the text cannot be read.
    pub fn update_driver_lap_time(&mut self, lap_time: String, index: usize) -> (r: Result<bool, LapFactorError>)
        requires
            index < old(self).factors.len(),
        ensures
            driver_lap_time_outcome(*old(self), *final(self), lap_time@, index as int, r),
    {
        match parse_duration_from_str(lap_time.as_str(), DurationFormat::MinSecMilli) {
            Ok(parsed) => {
                let reference = self.standard_lap_time;
                self.factors[index].lap_time = parsed;
                self.factors[index].compute_factor_from_reference(reference);
                Ok(true)
            },
            Err(e) => Err(LapFactorError::LapTime(e)),
        }
    }

    /// Takes a new standard lap time and works out every driver's factor
    /// against it.
    pub fn changed(&mut self, lap_time: Duration) -> (render: bool)
        ensures
            render,
            final(self).standard_lap_time == lap_time,
            final(self).factors.len() == old(self).factors.len(),
            forall|j: int|
                0 <= j < old(self).factors.len() ==> {
                    &&& (#[trigger] final(self).factors@[j]).lap_time == old(self).factors@[j].lap_time
                    &&& final(self).factors@[j].factor == Factor::from_lap_times_spec(
                        old(self).factors@[j].lap_time@,
                        lap_time@,
                    )
                    &&& final(self).factors@[j].driver_name == old(self).factors@[j].driver_name
                    &&& final(self).factors@[j].driver_color == old(self).factors@[j].driver_color
                },
    {
        self.standard_lap_time = lap_time;
        let ghost before = self.factors@;
        let mut i: usize = 0;
        while i < self.factors.len()
            invariant
                self.standard_lap_time == lap_time,
                self.factors.len() == before.len(),
                i <= before.len(),
                forall|j: int| i <= j < before.len() ==> #[trigger] self.factors@[j] == before[j],
                forall|j: int|
                    0 <= j < i ==> {
                        &&& (#[trigger] self.factors@[j]).lap_time == before[j].lap_time
                        &&& self.factors@[j].factor == Factor::from_lap_times_spec(
                            before[j].lap_time@,
                            lap_time@,
                        )
                        &&& self.factors@[j].driver_name == before[j].driver_name
                        &&& self.factors@[j].driver_color == before[j].driver_color
                    },
            decreases before.len() - i,
        {
            assert(self.factors@[i as int] == before[i as int]);
            self.factors[i].compute_factor_from_reference(lap_time);
            i = i + 1;
        }
        true
    }

    /// Takes an edit of the table; see `load_drivers` and
    /// `update_driver_lap_time`.
    pub fn update(&mut self, msg: PerDriverLapFactorsMsg) -> (r: Result<bool, LapFactorError>)
        requires
            msg matches PerDriverLapFactorsMsg::UpdateDriverLapTime(_, i) ==> i < old(self).factors.len(),
        ensures
            match msg {
                PerDriverLapFactorsMsg::LoadDrivers(drivers) => {
                    &&& r == Ok::<bool, LapFactorError>(true)
                    &&& drivers_loaded(*old(self), *final(self), drivers@)
                },
                PerDriverLapFactorsMsg::UpdateDriverLapTime(text, i) => driver_lap_time_outcome(
                    *old(self),
                    *final(self),
                    text@,
                    i as int,
                    r,
                ),
            },
    {
        match msg {
            PerDriverLapFactorsMsg::LoadDrivers(drivers) => {
                self.load_drivers(&drivers);
                Ok(true)
            },
            PerDriverLapFactorsMsg::UpdateDriverLapTime(text, i) => self.update_driver_lap_time(text, i),
        }
    }
}

} // verus!
