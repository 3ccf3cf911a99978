//! A race plan as a whole, and the planner's tabs.

use crate::event_config::EventConfigData;
use crate::lap_factors::{DriverLapFactor, TimeOfDayLapFactor};
use crate::roster::Driver;
use crate::schedule::ScheduleDataRow;
use crate::stint::{FuelStintAverageTimes, OverallFuelStintConfigData};
use crate::time::Duration;
use vstd::prelude::*;
use vstd::string::*;

verus! {

/// Everything that a plan holds.
pub struct RacePlanner {
    pub overall_event_config: Option<EventConfigData>,
    pub overall_fuel_stint_config: OverallFuelStintConfigData,
    pub fuel_stint_average_times: Option<FuelStintAverageTimes>,
    pub time_of_day_lap_factors: Vec<TimeOfDayLapFactor>,
    pub per_driver_lap_factors: Vec<DriverLapFactor>,
    pub driver_roster: Vec<Driver>,
    pub schedule_rows: Option<Vec<ScheduleDataRow>>,
    pub title: String,
}

impl RacePlanner {
    /// An empty plan titled "New Plan".
    pub fn new() -> (p: RacePlanner)
        ensures
            p.overall_event_config is None,
            p.overall_fuel_stint_config == OverallFuelStintConfigData::new_spec(),
            p.fuel_stint_average_times is None,
            p.time_of_day_lap_factors.len() == 0,
            p.per_driver_lap_factors.len() == 0,
            p.driver_roster.len() == 0,
            p.schedule_rows is None,
            p.title@ == "New Plan"@,
    {
        RacePlanner {
            overall_event_config: None,
            overall_fuel_stint_config: OverallFuelStintConfigData::new(),
            fuel_stint_average_times: None,
            time_of_day_lap_factors: Vec::new(),
            per_driver_lap_factors: Vec::new(),
            driver_roster: Vec::new(),
            schedule_rows: None,
            title: String::from_str("New Plan"),
        }
    }
}

/// What the overview screen is told: the plan it shows changed.
#[derive(Clone, Copy, Debug, PartialEq, Eq, Structural)]
pub enum OverviewMsg {
    ContextUpdate,
}

/// The overview screen, which lays out the plan's cards.
#[derive(Clone, Copy, Debug, PartialEq, Eq, Structural)]
pub struct Overview {}

impl Overview {
    /// Any change of the plan redraws the overview.
    pub fn update(&mut self, msg: OverviewMsg) -> (render: bool)
        ensures
            render,
    {
        match msg {
            OverviewMsg::ContextUpdate => true,
        }
    }

    /// The standard lap time that the lap factor cards are measured
    /// against: the standard stint's, or none while the average stints are
    /// not known.
    pub fn standard_lap_time(times: &Option<FuelStintAverageTimes>) -> (d: Duration)
        ensures
            d@ == match times {
                Some(t) => t.standard_fuel_stint.lap_time@,
                None => 0,
            },
    {
        match times {
            Some(t) => t.standard_fuel_stint.lap_time,
            None => Duration::zero(),
        }
    }
}

/// The planner's tabs, each for the plan with id `id`.
#[derive(Clone, Copy, Debug, PartialEq, Eq, Structural)]
pub enum PlannerRoutes {
    Schedule { id: u128 },
    Roster { id: u128 },
    Overview { id: u128 },
}

impl PlannerRoutes {
    /// The plan the tab belongs to.
    pub fn plan_id(&self) -> (id: u128)
        ensures
            id == match *self {
                PlannerRoutes::Schedule { id } => id,
                PlannerRoutes::Roster { id } => id,
                PlannerRoutes::Overview { id } => id,
            },
    {
        match self {
            PlannerRoutes::Schedule { id } | PlannerRoutes::Roster { id } | PlannerRoutes::Overview {
                id,
            } => *id,
        }
    }

    /// The tab's title.
    pub fn label(&self) -> (s: &'static str)
        ensures
            s@ == match *self {
                PlannerRoutes::Schedule { .. } => "Schedule"@,
                PlannerRoutes::Roster { .. } => "Roster"@,
                PlannerRoutes::Overview { .. } => "Overview"@,
            },
    {
        match self {
            PlannerRoutes::Schedule { .. } => "Schedule",
            PlannerRoutes::Roster { .. } => "Roster",
            PlannerRoutes::Overview { .. } => "Overview",
        }
    }

    /// The name of the tab's icon.
    pub fn icon(&self) -> (s: &'static str)
        ensures
            s@ == match *self {
                PlannerRoutes::Schedule { .. } => "schedule"@,
                PlannerRoutes::Roster { .. } => "list"@,
                PlannerRoutes::Overview { .. } => "home"@,
            },
    {
        match self {
            PlannerRoutes::Schedule { .. } => "schedule",
            PlannerRoutes::Roster { .. } => "list",
            PlannerRoutes::Overview { .. } => "home",
        }
    }

    /// Whether this tab is the one shown: the same tab of the same plan.
    pub fn is_active(&self, current_route: &PlannerRoutes) -> (b: bool)
        ensures
            b == (*self == *current_route),
    {
        *self == *current_route
    }
}

/// The events of the planner.
pub enum PlannerMsg {
    /// A tab was chosen.
    ChangeRoute(PlannerRoutes),
    /// The address changed, so the active tab may have.
    UpdateTab,
    /// The plan with this id arrived.
    UpdatePlan(u128, RacePlanner),
    /// The plan's title was edited.
    UpdatePlanTitle(String),
}

/// What the planner asks its host to do.
pub enum PlannerAction {
    Nothing,
    /// Go to this tab.
    PushRoute(PlannerRoutes),
    /// Show this as the page's title.
    SetPageTitle(String),
    /// Save the plan's new title.
    PatchTitle(u128, String),
}

/// How the planner gets its plan when it opens.
#[derive(Clone, Copy, Debug, PartialEq, Eq, Structural)]
pub enum PlannerStart {
    /// No plan was named: make one with this id and show its overview.
    CreatePlan(u128),
    /// Fetch the plan with this id.
    GetPlan(u128),
}

/// The planner's state: the plan it shows and its id.
pub struct Planner {
    pub plan_id: u128,
    pub plan: RacePlanner,
}

impl Planner {
    /// Opens the planner at a route for the plan `route_id`, where 0 names
    /// no plan; `fresh_id` is the id a new plan gets.
    pub fn create(route_id: u128, fresh_id: u128) -> (r: (Planner, PlannerStart))
        ensures
            route_id == 0 ==> r.0.plan_id == fresh_id && r.1 == PlannerStart::CreatePlan(fresh_id),
            route_id != 0 ==> r.0.plan_id == route_id && r.1 == PlannerStart::GetPlan(route_id),
            r.0.plan.title@ == "New Plan"@,
            r.0.plan.overall_event_config is None,
            r.0.plan.fuel_stint_average_times is None,
            r.0.plan.schedule_rows is None,
    {
        let plan = RacePlanner::new();
        if route_id == 0 {
            (Planner { plan_id: fresh_id, plan }, PlannerStart::CreatePlan(fresh_id))
        } else {
            (Planner { plan_id: route_id, plan }, PlannerStart::GetPlan(route_id))
        }
    }

    /// Takes an event; gives whether to draw the planner again and what the
    /// host is to do.
    pub fn update(&mut self, msg: PlannerMsg) -> (r: (bool, PlannerAction))
        ensures
            match msg {
                PlannerMsg::ChangeRoute(route) => {
                    &&& !r.0
                    &&& r.1 matches PlannerAction::PushRoute(to) && to == route
                    &&& final(self).plan_id == old(self).plan_id
                    &&& final(self).plan.title@ == old(self).plan.title@
                },
                PlannerMsg::UpdateTab => {
                    &&& r.0
                    &&& r.1 is Nothing
                    &&& final(self).plan_id == old(self).plan_id
                    &&& final(self).plan.title@ == old(self).plan.title@
                },
                PlannerMsg::UpdatePlan(id, plan) => {
                    &&& r.0
                    &&& r.1 matches PlannerAction::SetPageTitle(t) && t@ == plan.title@
                    &&& final(self).plan_id == id
                    &&& final(self).plan == plan
                },
                PlannerMsg::UpdatePlanTitle(title) => {
                    &&& !r.0
                    &&& r.1 matches PlannerAction::PatchTitle(id, t) && id == old(self).plan_id
                        && t@ == title@
                    &&& final(self).plan_id == old(self).plan_id
                    &&& final(self).plan.title@ == title@
                },
            },
    {
        match msg {
            PlannerMsg::ChangeRoute(route) => (false, PlannerAction::PushRoute(route)),
            PlannerMsg::UpdateTab => (true, PlannerAction::Nothing),
            PlannerMsg::UpdatePlan(id, plan) => {
                let title = plan.title.clone();
                self.plan_id = id;
                self.plan = plan;
                (true, PlannerAction::SetPageTitle(title))
            },
            PlannerMsg::UpdatePlanTitle(title) => {
                let saved = title.clone();
                self.plan.title = title;
                (false, PlannerAction::PatchTitle(self.plan_id, saved))
            },
        }
    }
}

} // verus!
