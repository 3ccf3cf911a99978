//! The card of the settings that every stint shares: the pit stop, the
//! tank, and the tire change.

use crate::duration_text::{parse_duration_from_str, parse_duration_result, DurationFormat, DurationParseError};
use crate::stint::OverallFuelStintConfigData;
use crate::text::{i32_text_value, parse_i32};
use vstd::prelude::*;

verus! {

/// The edits of the fuel settings card.
pub enum OverallFuelStintMessage {
    /// The pit stop's length was typed in, as `MM:SS.mmm`.
    UpdatePitDuration(String),
    /// The tank's size was typed in.
    UpdateFuelTankSize(String),
    /// The tire change's length was typed in, as `MM:SS.mmm`.
    UpdateTireChangeTime(String),
    /// Whether a tire change adds to the pit stop was switched.
    UpdateAddTireTime(bool),
    /// The stored settings.
    OnCreate(OverallFuelStintConfigData),
}

/// Why an edit of the fuel settings was not taken.
#[derive(Clone, Copy, Debug, PartialEq, Eq, Structural)]
pub enum FuelStintConfigError {
    /// A duration could not be read.
    Duration(DurationParseError),
    /// The tank's size is not a number that fits an `i32`.
    FuelTankSize,
}

/// What the host does after the card took an edit.
#[derive(Clone, Copy, Debug, PartialEq, Eq, Structural)]
pub struct FuelConfigUpdate {
    /// Whether to draw the card again.
    pub render: bool,
    /// Whether the planner's shared settings take the card's new settings.
    pub publish: bool,
    /// Whether the plan is to be saved now with the card's settings.
    pub save: bool,
}

/// The fuel settings card's state.
#[derive(Clone, Copy, Debug, PartialEq, Eq, Structural)]
pub struct OverallFuelStintConfig {
    pub data: OverallFuelStintConfigData,
}

impl OverallFuelStintConfig {
    /// A card holding `data`.
    pub fn new(data: OverallFuelStintConfigData) -> (c: OverallFuelStintConfig)
        ensures
            c.data == data,
    {
        OverallFuelStintConfig { data }
    }

    /// Takes an edit. `Ok` when the card took it, telling whether to draw the
    /// card again, whether the planner's shared settings take the new ones
    /// (after every edit but the stored settings arriving) and whether the
    /// plan is saved now (after switching the tire-change time alone);
    /// `Err`, with the settings as they were, when a value cannot be read.
    pub fn update(&mut self, msg: OverallFuelStintMessage) -> (r: Result<FuelConfigUpdate, FuelStintConfigError>)
        ensures
            r is Err ==> final(self).data == old(self).data,
            match msg {
                OverallFuelStintMessage::UpdatePitDuration(text) => match parse_duration_result(
                    text@,
                    DurationFormat::MinSecMilli,
                ) {
                    Ok(d) => {
                        &&& r == Ok::<FuelConfigUpdate, FuelStintConfigError>(
                            FuelConfigUpdate { render: true, publish: true, save: false },
                        )
                        &&& final(self).data.pit_duration@ == d
                        &&& final(self).data.fuel_tank_size == old(self).data.fuel_tank_size
                        &&& final(self).data.tire_change_time == old(self).data.tire_change_time
                        &&& final(self).data.add_tire_time == old(self).data.add_tire_time
                    },
                    Err(e) => r == Err::<FuelConfigUpdate, FuelStintConfigError>(
                        FuelStintConfigError::Duration(e),
                    ),
                },
                OverallFuelStintMessage::UpdateFuelTankSize(text) => match i32_text_value(text@) {
                    Some(size) => {
                        &&& r == Ok::<FuelConfigUpdate, FuelStintConfigError>(
                            FuelConfigUpdate { render: true, publish: true, save: false },
                        )
                        &&& final(self).data.fuel_tank_size == size
                        &&& final(self).data.pit_duration == old(self).data.pit_duration
                        &&& final(self).data.tire_change_time == old(self).data.tire_change_time
                        &&& final(self).data.add_tire_time == old(self).data.add_tire_time
                    },
                    None => r == Err::<FuelConfigUpdate, FuelStintConfigError>(
                        FuelStintConfigError::FuelTankSize,
                    ),
                },
                OverallFuelStintMessage::UpdateTireChangeTime(text) => match parse_duration_result(
                    text@,
                    DurationFormat::MinSecMilli,
                ) {
                    Ok(d) => {
                        &&& r == Ok::<FuelConfigUpdate, FuelStintConfigError>(
                            FuelConfigUpdate { render: true, publish: true, save: false },
                        )
                        &&& final(self).data.tire_change_time@ == d
                        &&& final(self).data.pit_duration == old(self).data.pit_duration
                        &&& final(self).data.fuel_tank_size == old(self).data.fuel_tank_size
                        &&& final(self).data.add_tire_time == old(self).data.add_tire_time
                    },
                    Err(e) => r == Err::<FuelConfigUpdate, FuelStintConfigError>(
                        FuelStintConfigError::Duration(e),
                    ),
                },
                OverallFuelStintMessage::UpdateAddTireTime(add) => {
                    &&& r == Ok::<FuelConfigUpdate, FuelStintConfigError>(
                        FuelConfigUpdate { render: false, publish: true, save: true },
                    )
                    &&& final(self).data.add_tire_time == add
                    &&& final(self).data.pit_duration == old(self).data.pit_duration
                    &&& final(self).data.fuel_tank_size == old(self).data.fuel_tank_size
                    &&& final(self).data.tire_change_time == old(self).data.tire_change_time
                },
                OverallFuelStintMessage::OnCreate(data) => {
                    &&& r == Ok::<FuelConfigUpdate, FuelStintConfigError>(
                        FuelConfigUpdate { render: true, publish: false, save: false },
                    )
                    &&& final(self).data == data
                },
            },
    {
        match msg {
            OverallFuelStintMessage::UpdatePitDuration(text) => {
                match parse_duration_from_str(text.as_str(), DurationFormat::MinSecMilli) {
                    Ok(d) => {
                        self.data.pit_duration = d;
                        Ok(FuelConfigUpdate { render: true, publish: true, save: false })
                    },
                    Err(e) => Err(FuelStintConfigError::Duration(e)),
                }
            },
            OverallFuelStintMessage::UpdateFuelTankSize(text) => match parse_i32(text.as_str()) {
                Some(size) => {
                    self.data.fuel_tank_size = size;
                    Ok(FuelConfigUpdate { render: true, publish: true, save: false })
                },
                None => Err(FuelStintConfigError::FuelTankSize),
            },
            OverallFuelStintMessage::UpdateTireChangeTime(text) => {
                match parse_duration_from_str(text.as_str(), DurationFormat::MinSecMilli) {
                    Ok(d) => {
                        self.data.tire_change_time = d;
                        Ok(FuelConfigUpdate { render: true, publish: true, save: false })
                    },
                    Err(e) => Err(FuelStintConfigError::Duration(e)),
                }
            },
            OverallFuelStintMessage::UpdateAddTireTime(add) => {
                self.data.add_tire_time = add;
                Ok(FuelConfigUpdate { render: false, publish: true, save: true })
            },
            OverallFuelStintMessage::OnCreate(data) => {
                self.data = data;
                Ok(FuelConfigUpdate { render: true, publish: false, save: false })
            },
        }
    }
}

} // verus!
