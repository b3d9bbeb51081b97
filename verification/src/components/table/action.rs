use vstd::prelude::*;

verus! {

/// When an action of a table can be taken.
#[derive(Clone, Copy, Debug, PartialEq, Eq, Structural)]
pub enum Availability {
    /// Whatever is selected.
    Always,
    /// When a row is selected.
    WhenSelected,
    /// When a row is selected and it permits the action.
    WhenPermitted,
}

/// Something the user can do on a table page: what it is called, the key
/// that triggers it, and when it can be taken.
pub struct Action<Id> where Id: Copy {
    pub id: Id,
    pub name: String,
    pub shortcut: String,
    pub enabled: Availability,
}

impl<Id> Action<Id> where Id: Copy {
    pub fn new(id: Id, name: String, shortcut: String, enabled: Availability) -> (a: Self)
        ensures
            a.id == id,
            a.name == name,
            a.shortcut == shortcut,
            a.enabled == enabled,
    {
        Self { id, name, shortcut, enabled }
    }

    /// Whether the action can be taken, given whether a row is selected and
    /// whether that row permits it.
    pub fn is_enabled(&self, selected: bool, permitted: bool) -> (b: bool)
        ensures
            b == match self.enabled {
                Availability::Always => true,
                Availability::WhenSelected => selected,
                Availability::WhenPermitted => selected && permitted,
            },
    {
        match self.enabled {
            Availability::Always => true,
            Availability::WhenSelected => selected,
            Availability::WhenPermitted => selected && permitted,
        }
    }
}

} // verus!
