//! The bus that the planner's screens share: who listens, the driver
//! roster it keeps, and what it sends to whom.

use crate::planner::RacePlanner;
use crate::roster::{clone_drivers, drivers_view, Driver, DriverView};
use std::collections::HashSet;
use vstd::prelude::*;
use vstd::std_specs::hash::spec_hash_keys_iter;
use vstd::std_specs::iter::IteratorSpec;

verus! {

broadcast use vstd::std_specs::hash::group_hash_axioms;

/// What the screens send to the bus.
pub enum EventBusInput {
    GetDriverRoster,
    PutDriverRoster(Vec<Driver>),
    PutPlannerTitle(String),
}

/// What the bus sends to the screens.
pub enum EventBusOutput {
    SendDriverRoster(Vec<Driver>),
    SendPlannerTitle(String),
}

/// The listeners that `out` goes to, in the order it goes to them.
pub open spec fn recipients(out: Seq<(u64, EventBusOutput)>) -> Seq<u64> {
    out.map_values(|o: (u64, EventBusOutput)| o.0)
}

/// `out` goes to each of `listeners` once and to no one else, in the order
/// in which the set is walked.
pub open spec fn reaches_each_once(listeners: Set<u64>, out: Seq<(u64, EventBusOutput)>) -> bool {
    &&& recipients(out).no_duplicates()
    &&& recipients(out).to_set() == listeners
    &&& out.len() == listeners.len()
}

/// `out` answers each of `listeners` once with `roster`.
pub open spec fn roster_answers(listeners: Set<u64>, roster: Seq<DriverView>, out: Seq<(u64, EventBusOutput)>) -> bool {
    &&& reaches_each_once(listeners, out)
    &&& forall|j: int|
        0 <= j < out.len() ==> ((#[trigger] out[j]).1 matches EventBusOutput::SendDriverRoster(d)
            && drivers_view(d@) == roster)
}

/// `out` sends `title` to each of `listeners` once.
pub open spec fn title_sent(listeners: Set<u64>, title: Seq<char>, out: Seq<(u64, EventBusOutput)>) -> bool {
    &&& reaches_each_once(listeners, out)
    &&& forall|j: int|
        0 <= j < out.len() ==> ((#[trigger] out[j]).1 matches EventBusOutput::SendPlannerTitle(t)
            && t@ == title)
}

/// The listeners and the plan's data.
pub struct EventBus {
    subscribers: HashSet<u64>,
    race_planner_data: RacePlanner,
}

impl EventBus {
    /// The listeners.
    pub closed spec fn subscribers_view(self) -> Set<u64> {
        self.subscribers@
    }

    /// The driver roster that the bus keeps.
    pub closed spec fn roster_view(self) -> Seq<DriverView> {
        drivers_view(self.race_planner_data.driver_roster@)
    }

    /// The plan that the bus keeps.
    pub fn race_planner_data(&self) -> (p: &RacePlanner)
        ensures
            drivers_view(p.driver_roster@) == self.roster_view(),
    {
        &self.race_planner_data
    }

    /// The listeners.
    pub fn subscribers(&self) -> (s: &HashSet<u64>)
        ensures
            s@ == self.subscribers_view(),
    {
        &self.subscribers
    }

    /// A bus without listeners over a new plan.
    pub fn create() -> (bus: EventBus)
        ensures
            bus.subscribers_view() == Set::<u64>::empty(),
            bus.roster_view().len() == 0,
    {
        EventBus { subscribers: HashSet::new(), race_planner_data: RacePlanner::new() }
    }

    /// Listener `id` joins; joining twice counts once.
    pub fn connected(&mut self, id: u64)
        ensures
            final(self).subscribers_view() == old(self).subscribers_view().insert(id),
            final(self).roster_view() == old(self).roster_view(),
    {
        self.subscribers.insert(id);
    }

    /// Listener `id` leaves.
    pub fn disconnected(&mut self, id: u64)
        ensures
            final(self).subscribers_view() == old(self).subscribers_view().remove(id),
            final(self).roster_view() == old(self).roster_view(),
    {
        self.subscribers.remove(&id);
    }

    /// The listeners, each once, in the order in which the set is walked.
    fn listeners(&self) -> (ids: Vec<u64>)
        ensures
            ids@.no_duplicates(),
            ids@.to_set() == self.subscribers_view(),
            ids@.len() == self.subscribers_view().len(),
    {
        let ghost keys = spec_hash_keys_iter(&self.subscribers).remaining().map_values(|r: &u64| *r);
        let mut ids: Vec<u64> = Vec::new();
        for x in it: self.subscribers.iter()
            invariant
                keys == spec_hash_keys_iter(&self.subscribers).remaining().map_values(|r: &u64| *r),
                it.seq() == spec_hash_keys_iter(&self.subscribers).remaining(),
                ids@ == it.seq().take(it.index() as int).map_values(|r: &u64| *r),
            ensures
                ids@ == keys,
        {
            ids.push(*x);
            assert(it.seq().take(it.index() as int + 1).map_values(|r: &u64| *r) =~= ids@);
        }
        assert(spec_hash_keys_iter(&self.subscribers).remaining().unref() =~= keys);
        ids
    }

    /// Takes an input: gives what goes to which listener, and keeps a new
    /// roster. A roster or title request reaches every listener once.
    pub fn handle_input(&mut self, msg: EventBusInput) -> (out: Vec<(u64, EventBusOutput)>)
        ensures
            final(self).subscribers_view() == old(self).subscribers_view(),
            match msg {
                EventBusInput::GetDriverRoster => {
                    &&& final(self).roster_view() == old(self).roster_view()
                    &&& roster_answers(old(self).subscribers_view(), old(self).roster_view(), out@)
                },
                EventBusInput::PutDriverRoster(drivers) => {
                    &&& out.len() == 0
                    &&& final(self).roster_view() == drivers_view(drivers@)
                },
                EventBusInput::PutPlannerTitle(title) => {
                    &&& final(self).roster_view() == old(self).roster_view()
                    &&& title_sent(old(self).subscribers_view(), title@, out@)
                },
            },
    {
        let mut out: Vec<(u64, EventBusOutput)> = Vec::new();
        match msg {
            EventBusInput::GetDriverRoster => {
                let ids = self.listeners();
                let mut i: usize = 0;
                while i < ids.len()
                    invariant
                        i <= ids.len(),
                        out.len() == i,
                        forall|j: int|
                            0 <= j < i ==> {
                                &&& (#[trigger] out@[j]).0 == ids@[j]
                                &&& out@[j].1 matches EventBusOutput::SendDriverRoster(d)
                                    && drivers_view(d@) == drivers_view(
                                    self.race_planner_data.driver_roster@,
                                )
                            },
                    decreases ids.len() - i,
                {
                    let roster = clone_drivers(&self.race_planner_data.driver_roster);
                    out.push((ids[i], EventBusOutput::SendDriverRoster(roster)));
                    i = i + 1;
                }
                assert(recipients(out@) =~= ids@);
            },
            EventBusInput::PutDriverRoster(drivers) => {
                self.race_planner_data.driver_roster = drivers;
            },
            EventBusInput::PutPlannerTitle(title) => {
                let ids = self.listeners();
                let mut i: usize = 0;
                while i < ids.len()
                    invariant
                        i <= ids.len(),
                        out.len() == i,
                        forall|j: int|
                            0 <= j < i ==> {
                                &&& (#[trigger] out@[j]).0 == ids@[j]
                                &&& out@[j].1 matches EventBusOutput::SendPlannerTitle(t) && t@ == title@
                            },
                    decreases ids.len() - i,
                {
                    out.push((ids[i], EventBusOutput::SendPlannerTitle(title.clone())));
                    i = i + 1;
                }
                assert(recipients(out@) =~= ids@);
            },
        }
        out
    }
}

/// Once a roster is put on the bus (`before` to `put`), a request for the
/// roster (`put` to `after`) answers every listener, each once, with that
/// roster; and the bus still keeps it.
pub proof fn lemma_roster_read_after_write(
    before: EventBus,
    put: EventBus,
    after: EventBus,
    drivers: Vec<Driver>,
    out: Vec<(u64, EventBusOutput)>,
)
    requires
        put.subscribers_view() == before.subscribers_view(),
        put.roster_view() == drivers_view(drivers@),
        after.subscribers_view() == put.subscribers_view(),
        after.roster_view() == put.roster_view(),
        roster_answers(put.subscribers_view(), put.roster_view(), out@),
    ensures
        roster_answers(before.subscribers_view(), drivers_view(drivers@), out@),
        after.roster_view() == drivers_view(drivers@),
        after.subscribers_view() == before.subscribers_view(),
{
}

} // verus!
