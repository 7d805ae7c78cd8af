//! The system registry: a labeled store for world simulation systems.

use vstd::prelude::*;

verus! {

/// The label of one registered system.
#[derive(Clone, Debug, PartialEq, Eq)]
pub struct SystemLabel {
    pub name: String,
}

/// Registry that stores and controls systems, by label.
#[derive(Clone, Debug)]
pub struct SystemRegistry {
    pub systems: Vec<SystemLabel>,
}

impl SystemRegistry {
    pub fn new() -> (r: Self)
        ensures
            r.systems@ == Seq::<SystemLabel>::empty(),
    {
        Self { systems: Vec::new() }
    }
}

} // verus!
