//! Spells a player can cast, and the four cardinal movement directions.

use vstd::prelude::*;
use crate::entity_type::EntityType;
use crate::units::{Vec2i, MILLI};

verus! {

/// The three spells a player character knows.
#[derive(Clone, Copy, Debug, PartialEq, Eq, Structural)]
pub enum Spell {
    Basic,
    KeneticPulse,
    Lightning,
}

impl Spell {
    /// The kind of projectile entity this spell spawns.
    pub fn projectile_entity_type(self) -> (r: EntityType)
        ensures
            r == spec_projectile_entity_type(self),
    {
        match self {
            Spell::Basic => EntityType::BasicAttack,
            Spell::KeneticPulse => EntityType::KeneticPulse,
            Spell::Lightning => EntityType::Lightning,
        }
    }
}

/// The kind of projectile entity each spell spawns.
pub open spec fn spec_projectile_entity_type(s: Spell) -> EntityType {
    match s {
        Spell::Basic => EntityType::BasicAttack,
        Spell::KeneticPulse => EntityType::KeneticPulse,
        Spell::Lightning => EntityType::Lightning,
    }
}

/// A cardinal movement direction.
#[derive(Clone, Copy, Debug, PartialEq, Eq, Structural)]
pub enum Direction {
    Right,
    Left,
    Up,
    Down,
}

/// The unit vector of each cardinal direction, in milli-scale components.
pub open spec fn spec_direction_vector(d: Direction) -> Vec2i {
    match d {
        Direction::Right => Vec2i { x: MILLI, y: 0 },
        Direction::Left => Vec2i { x: (-MILLI) as i64, y: 0 },
        Direction::Up => Vec2i { x: 0, y: MILLI },
        Direction::Down => Vec2i { x: 0, y: (-MILLI) as i64 },
    }
}

impl Direction {
    /// The unit vector pointing this way, in milli-scale components.
    pub fn unit_vector(self) -> (r: Vec2i)
        ensures
            r == spec_direction_vector(self),
            -MILLI <= r.x <= MILLI,
            -MILLI <= r.y <= MILLI,
    {
        match self {
            Direction::Right => Vec2i { x: MILLI, y: 0 },
            Direction::Left => Vec2i { x: -MILLI, y: 0 },
            Direction::Up => Vec2i { x: 0, y: MILLI },
            Direction::Down => Vec2i { x: 0, y: -MILLI },
        }
    }
}

} // verus!
