//! The race's times: when the session starts, when the green flag falls,
//! how long the race lasts, and the simulated time of day at its start.

use crate::duration_text::{parse_duration_from_str, parse_duration_result, DurationFormat, DurationParseError};
use crate::time::{instant_in_range, Duration, Instant, NANOS_PER_SEC};
use vstd::prelude::*;

verus! {

#[derive(Clone, Copy, Debug, PartialEq, Eq, Structural)]
pub struct EventConfigData {
    pub race_duration: Duration,
    pub session_start_utc: Instant,
    pub race_start_utc: Instant,
    pub race_end_utc: Instant,
    pub race_start_tod: Instant,
    pub race_end_tod: Instant,
    pub green_flag_offset: Duration,
    pub tod_offset: Duration,
}

impl EventConfigData {
    /// The derived times agree with the ones they are derived from.
    pub open spec fn wf(self) -> bool {
        &&& self.race_start_utc@ == self.session_start_utc@ + self.green_flag_offset@
        &&& self.race_end_utc@ == self.race_start_utc@ + self.race_duration@
        &&& self.race_end_tod@ == self.race_start_tod@ + self.race_duration@
        &&& self.tod_offset@ == self.race_start_tod@ - self.race_start_utc@
    }

    /// The derived times of `self` can be represented.
    pub open spec fn race_times_representable(self) -> bool {
        &&& instant_in_range(self.session_start_utc@ + self.green_flag_offset@)
        &&& instant_in_range(
            self.session_start_utc@ + self.green_flag_offset@ + self.race_duration@,
        )
        &&& instant_in_range(self.race_start_tod@ + self.race_duration@)
    }

    /// A configuration with every time at `now` and no durations.
    pub fn new(now: Instant) -> (c: EventConfigData)
        ensures
            c.wf(),
            c.race_duration@ == 0,
            c.green_flag_offset@ == 0,
            c.session_start_utc == now,
            c.race_start_tod == now,
    {
        EventConfigData {
            race_duration: Duration::zero(),
            session_start_utc: now,
            race_start_utc: now,
            race_end_utc: now,
            race_start_tod: now,
            race_end_tod: now,
            green_flag_offset: Duration::zero(),
            tod_offset: Duration::zero(),
        }
    }

    /// Works out the race's start and end, in UTC and in time of day, and
    /// the offset between the two clocks.
    pub fn update_race_times(&mut self)
        requires
            old(self).race_times_representable(),
        ensures
            final(self).wf(),
            final(self).race_duration == old(self).race_duration,
            final(self).session_start_utc == old(self).session_start_utc,
            final(self).race_start_tod == old(self).race_start_tod,
            final(self).green_flag_offset == old(self).green_flag_offset,
    {
        self.race_start_utc = self.session_start_utc.add(&self.green_flag_offset);
        self.race_end_utc = self.race_start_utc.add(&self.race_duration);
        self.race_end_tod = self.race_start_tod.add(&self.race_duration);
        self.tod_offset = self.race_start_tod.since(&self.race_start_utc);
    }
}

/// The format in which dates and times are shown and read:
/// `YYYY-MM-DD HH:MM:SS`.
pub const DATE_FORMAT: &'static str = "%Y-%m-%d %H:%M:%S";

/// What `chrono::NaiveDateTime::parse_from_str(text, format)` gives, as the
/// whole seconds since 1970-01-01T00:00:00 and the nanoseconds past them.
pub uninterp spec fn date_time_text_value(text: Seq<char>, format: Seq<char>) -> Option<(i64, u32)>;

/// Calls `chrono::NaiveDateTime::parse_from_str` and reads the result as a
/// UTC timestamp; the contract claims only that the result is the one
/// `date_time_text_value` names for the two texts.
#[verifier::external_body]
fn read_date_time(text: &str, format: &str) -> (r: Option<(i64, u32)>)
    ensures
        r == date_time_text_value(text@, format@),
{
    chrono::NaiveDateTime::parse_from_str(text, format).ok().map(
        |d| (d.and_utc().timestamp(), d.and_utc().timestamp_subsec_nanos()),
    )
}

/// What `chrono::NaiveDateTime::format(format).to_string()` writes for the
/// moment `secs` seconds and `nanos` nanoseconds after 1970-01-01T00:00:00.
pub uninterp spec fn date_time_text(secs: int, nanos: int, format: Seq<char>) -> Seq<char>;

/// The format in which a time on the clock is shown: the hour on a
/// twelve-hour clock, space-padded, the minutes, and AM or PM.
pub const CLOCK_TIME_FORMAT: &'static str = "%l:%M %p";

/// Calls `chrono::DateTime::from_timestamp` and then `format` and
/// `to_string` on its date and time. The moment must be one that the
/// library can represent, with fewer than a second of nanoseconds, and the
/// format one of the planner's own; the contract claims only that the text
/// is the one `date_time_text` names.
#[verifier::external_body]
fn write_date_time(secs: i64, nanos: u32, format: &str) -> (s: String)
    requires
        instant_in_range(secs * NANOS_PER_SEC + nanos),
        nanos < NANOS_PER_SEC,
        format@ == DATE_FORMAT@ || format@ == CLOCK_TIME_FORMAT@,
    ensures
        s@ == date_time_text(secs as int, nanos as int, format@),
{
    chrono::DateTime::from_timestamp(secs, nanos).unwrap().naive_utc().format(format).to_string()
}

/// The whole seconds of an instant, rounded down, and the nanoseconds past
/// them.
pub open spec fn instant_parts(nanos: int) -> (int, int) {
    (nanos / NANOS_PER_SEC as int, nanos % NANOS_PER_SEC as int)
}

/// Writes an instant as `YYYY-MM-DD HH:MM:SS`.
pub fn format_date_time(date_time: Instant) -> (s: String)
    ensures
        s@ == date_time_text(
            instant_parts(date_time@).0,
            instant_parts(date_time@).1,
            DATE_FORMAT@,
        ),
{
    let n = date_time.as_nanos();
    let mut secs = n / NANOS_PER_SEC;
    let mut sub = n % NANOS_PER_SEC;
    if sub < 0 {
        secs = secs - 1;
        sub = sub + NANOS_PER_SEC;
    }
    assert(secs == n as int / NANOS_PER_SEC as int && sub == n as int % NANOS_PER_SEC as int);
    write_date_time(secs as i64, sub as u32, DATE_FORMAT)
}

/// Writes the time on the clock of an instant, as the schedule shows the
/// start and end of a stint: ` 1:05 PM`.
pub fn format_clock_time(t: Instant) -> (s: String)
    ensures
        s@ == date_time_text(instant_parts(t@).0, instant_parts(t@).1, CLOCK_TIME_FORMAT@),
{
    let n = t.as_nanos();
    let mut secs = n / NANOS_PER_SEC;
    let mut sub = n % NANOS_PER_SEC;
    if sub < 0 {
        secs = secs - 1;
        sub = sub + NANOS_PER_SEC;
    }
    assert(secs == n as int / NANOS_PER_SEC as int && sub == n as int % NANOS_PER_SEC as int);
    write_date_time(secs as i64, sub as u32, CLOCK_TIME_FORMAT)
}

/// The instant that a `YYYY-MM-DD HH:MM:SS` text names, read as UTC.
pub open spec fn date_time_text_instant(text: Seq<char>) -> Option<int> {
    match date_time_text_value(text, DATE_FORMAT@) {
        Some((secs, nanos)) => if instant_in_range(secs * NANOS_PER_SEC + nanos) {
            Some(secs * NANOS_PER_SEC + nanos)
        } else {
            None
        },
        None => None,
    }
}

/// Reads a `YYYY-MM-DD HH:MM:SS` text as a UTC instant.
pub fn parse_date_time(text: &str) -> (t: Option<Instant>)
    ensures
        match date_time_text_instant(text@) {
            Some(n) => t matches Some(i) && i@ == n,
            None => t is None,
        },
{
    match read_date_time(text, DATE_FORMAT) {
        Some((secs, nanos)) => Instant::from_nanos(secs as i128 * NANOS_PER_SEC + nanos as i128),
        None => None,
    }
}

/// The edits of the event configuration card.
pub enum EventConfigMsg {
    ChangeGreenFlagOffset(String),
    ChangeSessionStart(String),
    ChangeRaceStartToD(String),
    ChangeRaceDuration(String),
    OnCreate(u128, EventConfigData),
}

/// Why an edit of the event configuration was not taken.
#[derive(Clone, Copy, Debug, PartialEq, Eq, Structural)]
pub enum EventConfigError {
    /// A duration could not be read.
    Duration(DurationParseError),
    /// A date and time could not be read.
    DateTime,
    /// The race's times would fall outside the representable range.
    OutOfRange,
}

/// The event configuration card's data and the plan it belongs to.
pub struct EventConfig {
    pub data: EventConfigData,
    pub plan_id: u128,
}

impl EventConfig {
    /// Takes an edit. `Ok(persist)` when the card took it, `persist` telling
    /// whether the plan is to be saved now; `Err` with the data as it was
    /// otherwise. A taken time edit works out the race's times again.
    pub fn update(&mut self, msg: EventConfigMsg) -> (r: Result<bool, EventConfigError>)
        ensures
            r is Err ==> final(self).data == old(self).data && final(self).plan_id == old(
                self,
            ).plan_id,
            match msg {
                EventConfigMsg::ChangeGreenFlagOffset(text) => match parse_duration_result(
                    text@,
                    DurationFormat::HourMinSec,
                ) {
                    Ok(offset) => {
                        let d = old(self).data;
                        if instant_in_range(d.session_start_utc@ + offset) && instant_in_range(
                            d.session_start_utc@ + offset + d.race_duration@,
                        ) && instant_in_range(d.race_start_tod@ + d.race_duration@) {
                            &&& r == Ok::<bool, EventConfigError>(true)
                            &&& final(self).data.green_flag_offset@ == offset
                            &&& final(self).data.session_start_utc == d.session_start_utc
                            &&& final(self).data.race_start_tod == d.race_start_tod
                            &&& final(self).data.race_duration == d.race_duration
                            &&& final(self).data.wf()
                            &&& final(self).plan_id == old(self).plan_id
                        } else {
                            r == Err::<bool, EventConfigError>(EventConfigError::OutOfRange)
                        }
                    },
                    Err(e) => r == Err::<bool, EventConfigError>(EventConfigError::Duration(e)),
                },
                EventConfigMsg::ChangeRaceDuration(text) => match parse_duration_result(
                    text@,
                    DurationFormat::HourMinSec,
                ) {
                    Ok(duration) => {
                        let d = old(self).data;
                        if instant_in_range(d.session_start_utc@ + d.green_flag_offset@)
                            && instant_in_range(
                            d.session_start_utc@ + d.green_flag_offset@ + duration,
                        ) && instant_in_range(d.race_start_tod@ + duration) {
                            &&& r == Ok::<bool, EventConfigError>(false)
                            &&& final(self).data.race_duration@ == duration
                            &&& final(self).data.session_start_utc == d.session_start_utc
                            &&& final(self).data.race_start_tod == d.race_start_tod
                            &&& final(self).data.green_flag_offset == d.green_flag_offset
                            &&& final(self).data.wf()
                            &&& final(self).plan_id == old(self).plan_id
                        } else {
                            r == Err::<bool, EventConfigError>(EventConfigError::OutOfRange)
                        }
                    },
                    Err(e) => r == Err::<bool, EventConfigError>(EventConfigError::Duration(e)),
                },
                EventConfigMsg::ChangeSessionStart(text) => match date_time_text_instant(text@) {
                    Some(start) => {
                        let d = old(self).data;
                        if instant_in_range(start + d.green_flag_offset@) && instant_in_range(
                            start + d.green_flag_offset@ + d.race_duration@,
                        ) && instant_in_range(d.race_start_tod@ + d.race_duration@) {
                            &&& r == Ok::<bool, EventConfigError>(false)
                            &&& final(self).data.session_start_utc@ == start
                            &&& final(self).data.race_duration == d.race_duration
                            &&& final(self).data.race_start_tod == d.race_start_tod
                            &&& final(self).data.green_flag_offset == d.green_flag_offset
                            &&& final(self).data.wf()
                            &&& final(self).plan_id == old(self).plan_id
                        } else {
                            r == Err::<bool, EventConfigError>(EventConfigError::OutOfRange)
                        }
                    },
                    None => r == Err::<bool, EventConfigError>(EventConfigError::DateTime),
                },
                EventConfigMsg::ChangeRaceStartToD(text) => match date_time_text_instant(text@) {
                    Some(tod) => {
                        let d = old(self).data;
                        if instant_in_range(d.session_start_utc@ + d.green_flag_offset@)
                            && instant_in_range(
                            d.session_start_utc@ + d.green_flag_offset@ + d.race_duration@,
                        ) && instant_in_range(tod + d.race_duration@) {
                            &&& r == Ok::<bool, EventConfigError>(false)
                            &&& final(self).data.race_start_tod@ == tod
                            &&& final(self).data.race_duration == d.race_duration
                            &&& final(self).data.session_start_utc == d.session_start_utc
                            &&& final(self).data.green_flag_offset == d.green_flag_offset
                            &&& final(self).data.wf()
                            &&& final(self).plan_id == old(self).plan_id
                        } else {
                            r == Err::<bool, EventConfigError>(EventConfigError::OutOfRange)
                        }
                    },
                    None => r == Err::<bool, EventConfigError>(EventConfigError::DateTime),
                },
                EventConfigMsg::OnCreate(plan_id, config) => {
                    &&& r == Ok::<bool, EventConfigError>(false)
                    &&& final(self).data == config
                    &&& final(self).plan_id == plan_id
                },
            },
    {
        match msg {
            EventConfigMsg::ChangeGreenFlagOffset(offset) => {
                match parse_duration_from_str(offset.as_str(), DurationFormat::HourMinSec) {
                    Ok(duration) => {
                        let mut data = self.data;
                        data.green_flag_offset = duration;
                        if !race_times_fit(&data) {
                            return Err(EventConfigError::OutOfRange);
                        }
                        data.update_race_times();
                        self.data = data;
                        Ok(true)
                    },
                    Err(e) => Err(EventConfigError::Duration(e)),
                }
            },
            EventConfigMsg::ChangeSessionStart(session_start) => {
                match parse_date_time(session_start.as_str()) {
                    Some(start) => {
                        let mut data = self.data;
                        data.session_start_utc = start;
                        if !race_times_fit(&data) {
                            return Err(EventConfigError::OutOfRange);
                        }
                        data.update_race_times();
                        self.data = data;
                        Ok(false)
                    },
                    None => Err(EventConfigError::DateTime),
                }
            },
            EventConfigMsg::ChangeRaceStartToD(race_start_tod) => {
                match parse_date_time(race_start_tod.as_str()) {
                    Some(tod) => {
                        let mut data = self.data;
                        data.race_start_tod = tod;
                        if !race_times_fit(&data) {
                            return Err(EventConfigError::OutOfRange);
                        }
                        data.update_race_times();
                        self.data = data;
                        Ok(false)
                    },
                    None => Err(EventConfigError::DateTime),
                }
            },
            EventConfigMsg::ChangeRaceDuration(duration) => {
                match parse_duration_from_str(duration.as_str(), DurationFormat::HourMinSec) {
                    Ok(duration) => {
                        let mut data = self.data;
                        data.race_duration = duration;
                        if !race_times_fit(&data) {
                            return Err(EventConfigError::OutOfRange);
                        }
                        data.update_race_times();
                        self.data = data;
                        Ok(false)
                    },
                    Err(e) => Err(EventConfigError::Duration(e)),
                }
            },
            EventConfigMsg::OnCreate(plan_id, config) => {
                self.plan_id = plan_id;
                self.data = config;
                Ok(false)
            },
        }
    }
}

/// Whether the race's times can be worked out for `data`.
pub fn race_times_fit(data: &EventConfigData) -> (b: bool)
    ensures
        b == data.race_times_representable(),
{
    let session = data.session_start_utc.as_nanos();
    let offset = data.green_flag_offset.as_nanos();
    let duration = data.race_duration.as_nanos();
    let tod = data.race_start_tod.as_nanos();
    let start = session + offset;
    let end = start + duration;
    let tod_end = tod + duration;
    Instant::from_nanos(start).is_some() && Instant::from_nanos(end).is_some()
        && Instant::from_nanos(tod_end).is_some()
}

} // verus!
