//! Projectiles spawned by a player casting a spell.

use vstd::prelude::*;
use crate::entity_type::EntityType;
use crate::spell::{spec_projectile_entity_type, Spell};
use crate::units::{
    add_coord, clamp_coord, displacement, scale_displacement, valid_coord, Vec2i, DT_MAX, MILLI,
};

verus! {

/// How long a projectile lives after its creation, in microseconds.
pub const PROJECTILE_LIFETIME_US: u64 = 3_100_000;

/// How fast every projectile flies, in milli-units per second.
pub const PROJECTILE_SPEED: u64 = 10_000;

/// The result of a player casting a spell: flies along a fixed direction at a
/// constant speed until its expiration time passes, and is then culled from
/// the world one tick after the snapshot that last reported it.
#[derive(Clone, Debug)]
pub struct PlayerProjectile {
    /// Identifier; unique among all live entities of the world.
    pub id: u128,
    /// Simulation time at which the projectile expires, in microseconds.
    pub expiration_time: u64,
    /// Whether an update has run at or past the expiration time.
    pub is_expired: bool,
    /// Position in the world, in micro-units.
    pub position: Vec2i,
    /// Unit vector of travel, milli-scale components.
    pub direction: Vec2i,
    /// Speed of travel, in milli-units per second.
    pub speed: u64,
    /// The spell that spawned it; decides the rendered kind and damage.
    pub spell_type: Spell,
}

impl PlayerProjectile {
    /// The projectile's invariant: position in range, direction of at most
    /// unit length per component, speed within the simulation bound.
    pub open spec fn wf(self) -> bool {
        &&& self.position.wf()
        &&& -MILLI <= self.direction.x <= MILLI
        &&& -MILLI <= self.direction.y <= MILLI
        &&& self.speed <= crate::units::SPEED_MAX
    }

    /// Where the projectile is, in micro-unit world coordinates.
    pub fn get_position(&self) -> (r: Vec2i)
        ensures
            r == self.position,
    {
        self.position
    }

    /// Whether the projectile has been marked expired.
    pub fn is_expired(&self) -> (r: bool)
        ensures
            r == self.is_expired,
    {
        self.is_expired
    }

    /// The kind of entity this projectile appears as in snapshots.
    pub fn get_entity_type(&self) -> (r: EntityType)
        ensures
            r == spec_projectile_entity_type(self.spell_type),
    {
        self.spell_type.projectile_entity_type()
    }

    /// The projectile's identifier.
    pub fn get_uuid(&self) -> (r: u128)
        ensures
            r == self.id,
    {
        self.id
    }

    /// What a projectile cast at simulation time `now` from `position` along
    /// the unit vector `direction` looks like: unexpired, due to expire after
    /// [`PROJECTILE_LIFETIME_US`], flying at [`PROJECTILE_SPEED`].
    pub open spec fn spec_new_projectile(
        position: Vec2i,
        direction: Vec2i,
        spell: Spell,
        id: u128,
        now: u64,
    ) -> PlayerProjectile {
        PlayerProjectile {
            id,
            expiration_time: (now + PROJECTILE_LIFETIME_US) as u64,
            is_expired: false,
            position,
            direction,
            speed: PROJECTILE_SPEED,
            spell_type: spell,
        }
    }

    /// A projectile cast at simulation time `now` from `position` along the
    /// unit vector `direction`: it lives for [`PROJECTILE_LIFETIME_US`] and
    /// flies at [`PROJECTILE_SPEED`].
    pub fn new(position: Vec2i, direction: Vec2i, spell: Spell, id: u128, now: u64) -> (r:
        PlayerProjectile)
        requires
            position.wf(),
            -MILLI <= direction.x <= MILLI,
            -MILLI <= direction.y <= MILLI,
            now <= u64::MAX - PROJECTILE_LIFETIME_US,
        ensures
            r == Self::spec_new_projectile(position, direction, spell, id, now),
            r.wf(),
    {
        PlayerProjectile {
            id,
            expiration_time: now + PROJECTILE_LIFETIME_US,
            is_expired: false,
            position,
            direction,
            speed: PROJECTILE_SPEED,
            spell_type: spell,
        }
    }

    /// What one update at simulation time `now` over `dt` microseconds does:
    /// while the expiration time lies ahead the projectile translates along
    /// its direction; from the first update at or past the expiration time it
    /// is marked expired and no longer moves.
    pub open spec fn spec_update(self, dt: u64, now: u64) -> PlayerProjectile {
        if self.expiration_time > now {
            self.spec_translate(dt)
        } else {
            PlayerProjectile { is_expired: true, ..self }
        }
    }

    /// What translating over `dt` microseconds does: each coordinate moves by
    /// the exact scaled displacement, saturating at the world edge.
    pub open spec fn spec_translate(self, dt: u64) -> PlayerProjectile {
        PlayerProjectile {
            position: Vec2i {
                x: clamp_coord(
                    self.position.x + displacement(
                        self.direction.x as int,
                        self.speed as int,
                        dt as int,
                    ),
                ) as i64,
                y: clamp_coord(
                    self.position.y + displacement(
                        self.direction.y as int,
                        self.speed as int,
                        dt as int,
                    ),
                ) as i64,
            },
            ..self
        }
    }

    /// Advances the projectile by one simulation step at time `now`.
    pub fn update(&mut self, delta_time: u64, now: u64)
        requires
            old(self).wf(),
            delta_time <= DT_MAX,
        ensures
            *final(self) == old(self).spec_update(delta_time, now),
            final(self).wf(),
    {
        if self.expiration_time > now {
            self.translate(delta_time);
        } else {
            self.is_expired = true;
        }
    }

    /// Moves the projectile along its direction for `dt` microseconds.
    pub fn translate(&mut self, delta_time: u64)
        requires
            old(self).wf(),
            delta_time <= DT_MAX,
        ensures
            *final(self) == old(self).spec_translate(delta_time),
            final(self).wf(),
    {
        let dx: i64 = scale_displacement(self.direction.x, self.speed, delta_time);
        let dy: i64 = scale_displacement(self.direction.y, self.speed, delta_time);
        self.position = Vec2i {
            x: add_coord(self.position.x, dx),
            y: add_coord(self.position.y, dy),
        };
    }
}

/// Projectile lifecycle: starting from an unexpired projectile, any chain of
/// updates whose observation times all lie strictly before the expiration
/// time leaves the projectile unexpired, and the first update at or past the
/// expiration time marks it expired without moving it; any later update keeps
/// it expired and in place, as long as the simulation clock does not run
/// backwards past the expiration time.
pub proof fn lemma_projectile_lifecycle(p: PlayerProjectile, dt: u64, now: u64)
    ensures
        !p.is_expired && now < p.expiration_time ==> !p.spec_update(dt, now).is_expired,
        now >= p.expiration_time ==> p.spec_update(dt, now).is_expired && p.spec_update(
            dt,
            now,
        ).position == p.position,
        p.is_expired && now >= p.expiration_time ==> p.spec_update(dt, now).is_expired,
{
}

} // verus!
