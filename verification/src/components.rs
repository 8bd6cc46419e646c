//! Auxiliary entity components: team affiliation and carried items. These are
//! plain data the simulation stores on entities; no system consumes them yet.

use vstd::prelude::*;

verus! {

/// An item an entity can carry.
#[derive(Clone, Copy, Debug, PartialEq, Eq, Structural)]
pub enum Item {
    Stick,
    Rock,
    Yarn,
    Frog,
    HealthPotion,
}

/// Whose side an entity is on.
#[derive(Clone, Copy, Debug, PartialEq, Eq, Structural)]
pub enum TeamAffilition {
    Neutral,
    Player,
    Enemy,
}

/// The team component of an entity.
#[derive(Clone, Copy, Debug, PartialEq, Eq, Structural)]
pub struct Team {
    pub affiliation: TeamAffilition,
}

/// The inventory component of an entity: counted stacks of items.
#[derive(Clone, Debug)]
pub struct Container {
    pub inventory: Vec<(i32, Item)>,
}

} // verus!
