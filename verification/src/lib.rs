//! Planning library for endurance races: durations and instants and their
//! text forms, the average fuel stints, lap-time factors, the fuel stint
//! schedule and how it is planned again as the race goes on, and the state
//! machines behind the planner's screens, from signing in to sharing a plan.

pub mod app_state;
pub mod auth;
pub mod duration_text;
pub mod event_bus;
pub mod event_config;
pub mod fuel_stint_config;
pub mod fuel_stint_schedule;
pub mod fuel_stint_times;
pub mod header;
pub mod http;
pub mod landing;
pub mod lap_factors;
pub mod md_text_field;
pub mod planner;
pub mod roster;
pub mod schedule;
pub mod share_plan;
pub mod stint;
pub mod text;
pub mod time;
