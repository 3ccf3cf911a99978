//! The drivers of a plan and the roster screen's edits to them.

use vstd::prelude::*;
use vstd::string::*;

verus! {

/// What a driver is, seen as plain values.
pub struct DriverView {
    pub id: i32,
    pub name: Seq<char>,
    pub total_stints: i32,
    pub fair_share: bool,
    pub color: Seq<char>,
    pub utc_offset: i16,
    pub irating: i16,
    pub stint_preference: i16,
}

#[derive(Debug)]
pub struct Driver {
    pub id: i32,
    pub name: String,
    pub total_stints: i32,
    pub fair_share: bool,
    pub color: String,
    pub utc_offset: i16,
    pub irating: i16,
    pub stint_preference: i16,
}

impl View for Driver {
    type V = DriverView;

    open spec fn view(&self) -> DriverView {
        DriverView {
            id: self.id,
            name: self.name@,
            total_stints: self.total_stints,
            fair_share: self.fair_share,
            color: self.color@,
            utc_offset: self.utc_offset,
            irating: self.irating,
            stint_preference: self.stint_preference,
        }
    }
}

impl Clone for Driver {
    fn clone(&self) -> (d: Self)
        ensures
            d@ == self@,
    {
        Driver {
            id: self.id,
            name: self.name.clone(),
            total_stints: self.total_stints,
            fair_share: self.fair_share,
            color: self.color.clone(),
            utc_offset: self.utc_offset,
            irating: self.irating,
            stint_preference: self.stint_preference,
        }
    }
}

impl Driver {
    /// A driver not yet saved: no id, no name, white, no offset, rating or
    /// preference.
    pub fn new() -> (d: Driver)
        ensures
            d@.id == 0,
            d@.name == Seq::<char>::empty(),
            d@.total_stints == 0,
            !d@.fair_share,
            d@.color == "#FFFFFF"@,
            d@.utc_offset == 0,
            d@.irating == 0,
            d@.stint_preference == 0,
    {
        Driver {
            id: 0,
            name: String::new(),
            total_stints: 0,
            fair_share: false,
            color: String::from_str("#FFFFFF"),
            utc_offset: 0,
            irating: 0,
            stint_preference: 0,
        }
    }
}

/// The drivers' views, in order.
pub open spec fn drivers_view(drivers: Seq<Driver>) -> Seq<DriverView> {
    drivers.map_values(|d: Driver| d@)
}

/// Copies a list of drivers.
pub fn clone_drivers(drivers: &Vec<Driver>) -> (r: Vec<Driver>)
    ensures
        drivers_view(r@) == drivers_view(drivers@),
{
    let mut r: Vec<Driver> = Vec::new();
    let mut i: usize = 0;
    while i < drivers.len()
        invariant
            i <= drivers.len(),
            r.len() == i,
            forall|j: int| 0 <= j < i ==> (#[trigger] r@[j])@ == drivers@[j]@,
        decreases drivers.len() - i,
    {
        r.push(drivers[i].clone());
        i = i + 1;
    }
    assert(drivers_view(r@) =~= drivers_view(drivers@));
    r
}

/// The edits of the roster table.
pub enum DriverRosterMsg {
    AddDriver,
    UpdateDriverName(String, usize),
    UpdateDriverColor(String, usize),
    UpdateDriverUtcOffset(i16, usize),
    UpdateDriverIrating(i16, usize),
    UpdateDriverStintPreference(i16, usize),
    UpdateDriverId(i32, usize),
}

/// What the roster asks the server to do after an edit.
pub enum RosterRequest {
    Nothing,
    /// Create this driver of the plan; its new id goes to row `usize`.
    CreateDriver(Driver, usize),
    /// Save this driver.
    UpdateDriver(Driver),
}

/// The drivers of the roster table.
pub struct DriverRoster {
    pub drivers: Vec<Driver>,
}

/// The drivers at every row but `index` are as they were.
pub open spec fn others_unchanged(old_drivers: Seq<Driver>, drivers: Seq<Driver>, index: int) -> bool {
    &&& drivers.len() == old_drivers.len()
    &&& forall|j: int| 0 <= j < drivers.len() && j != index ==> (#[trigger] drivers[j])@ == old_drivers[j]@
}

impl DriverRoster {
    /// The roster table of `drivers`.
    pub fn create(drivers: &Vec<Driver>) -> (r: DriverRoster)
        ensures
            drivers_view(r.drivers@) == drivers_view(drivers@),
    {
        DriverRoster { drivers: clone_drivers(drivers) }
    }

    /// Takes an edit of the table: gives whether the table shows something
    /// new and what to ask the server. A stint preference edit saves the
    /// driver: a driver without an id is created, one with an id updated.
    pub fn update(&mut self, msg: DriverRosterMsg) -> (r: (bool, RosterRequest))
        requires
            match msg {
                DriverRosterMsg::AddDriver => true,
                DriverRosterMsg::UpdateDriverName(_, i) => i < old(self).drivers.len(),
                DriverRosterMsg::UpdateDriverColor(_, i) => i < old(self).drivers.len(),
                DriverRosterMsg::UpdateDriverUtcOffset(_, i) => i < old(self).drivers.len(),
                DriverRosterMsg::UpdateDriverIrating(_, i) => i < old(self).drivers.len(),
                DriverRosterMsg::UpdateDriverStintPreference(_, i) => i < old(self).drivers.len(),
                DriverRosterMsg::UpdateDriverId(_, i) => i < old(self).drivers.len(),
            },
        ensures
            ({
                let old_drivers = old(self).drivers@;
                let drivers = final(self).drivers@;
                match msg {
                    DriverRosterMsg::AddDriver => {
                        &&& r.0
                        &&& r.1 is Nothing
                        &&& drivers.len() == old_drivers.len() + 1
                        &&& forall|j: int| 0 <= j < old_drivers.len() ==> (#[trigger] drivers[j])@ == old_drivers[j]@
                        &&& drivers.last()@ == (DriverView {
                            id: 0,
                            name: Seq::<char>::empty(),
                            total_stints: 0,
                            fair_share: false,
                            color: "#FFFFFF"@,
                            utc_offset: 0,
                            irating: 0,
                            stint_preference: 0,
                        })
                    },
                    DriverRosterMsg::UpdateDriverName(name, i) => {
                        &&& !r.0
                        &&& r.1 is Nothing
                        &&& others_unchanged(old_drivers, drivers, i as int)
                        &&& drivers[i as int]@ == (DriverView { name: name@, ..old_drivers[i as int]@ })
                    },
                    DriverRosterMsg::UpdateDriverColor(color, i) => {
                        &&& r.0
                        &&& r.1 is Nothing
                        &&& others_unchanged(old_drivers, drivers, i as int)
                        &&& drivers[i as int]@ == (DriverView { color: color@, ..old_drivers[i as int]@ })
                    },
                    DriverRosterMsg::UpdateDriverUtcOffset(offset, i) => {
                        &&& !r.0
                        &&& r.1 is Nothing
                        &&& others_unchanged(old_drivers, drivers, i as int)
                        &&& drivers[i as int]@ == (DriverView {
                            utc_offset: offset,
                            ..old_drivers[i as int]@
                        })
                    },
                    DriverRosterMsg::UpdateDriverIrating(irating, i) => {
                        &&& !r.0
                        &&& r.1 is Nothing
                        &&& others_unchanged(old_drivers, drivers, i as int)
                        &&& drivers[i as int]@ == (DriverView { irating, ..old_drivers[i as int]@ })
                    },
                    DriverRosterMsg::UpdateDriverStintPreference(preference, i) => {
                        &&& !r.0
                        &&& others_unchanged(old_drivers, drivers, i as int)
                        &&& drivers[i as int]@ == (DriverView {
                            stint_preference: preference,
                            ..old_drivers[i as int]@
                        })
                        &&& if old_drivers[i as int].id == 0 {
                            r.1 matches RosterRequest::CreateDriver(d, row) && row == i
                                && d@ == drivers[i as int]@
                        } else {
                            r.1 matches RosterRequest::UpdateDriver(d) && d@ == drivers[i as int]@
                        }
                    },
                    DriverRosterMsg::UpdateDriverId(id, i) => {
                        &&& !r.0
                        &&& r.1 is Nothing
                        &&& others_unchanged(old_drivers, drivers, i as int)
                        &&& drivers[i as int]@ == (DriverView { id, ..old_drivers[i as int]@ })
                    },
                }
            }),
    {
        match msg {
            DriverRosterMsg::AddDriver => {
                self.drivers.push(Driver::new());
                (true, RosterRequest::Nothing)
            },
            DriverRosterMsg::UpdateDriverName(name, index) => {
                self.drivers[index].name = name;
                (false, RosterRequest::Nothing)
            },
            DriverRosterMsg::UpdateDriverColor(color, index) => {
                self.drivers[index].color = color;
                (true, RosterRequest::Nothing)
            },
            DriverRosterMsg::UpdateDriverUtcOffset(offset, index) => {
                self.drivers[index].utc_offset = offset;
                (false, RosterRequest::Nothing)
            },
            DriverRosterMsg::UpdateDriverIrating(irating, index) => {
                self.drivers[index].irating = irating;
                (false, RosterRequest::Nothing)
            },
            DriverRosterMsg::UpdateDriverStintPreference(stint_preference, index) => {
                self.drivers[index].stint_preference = stint_preference;
                let saved = self.drivers[index].clone();
                if saved.id == 0 {
                    (false, RosterRequest::CreateDriver(saved, index))
                } else {
                    (false, RosterRequest::UpdateDriver(saved))
                }
            },
            DriverRosterMsg::UpdateDriverId(id, index) => {
                self.drivers[index].id = id;
                (false, RosterRequest::Nothing)
            },
        }
    }
}

} // verus!
