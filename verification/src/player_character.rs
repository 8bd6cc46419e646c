//! The player character: stats, health and mana accounting, sprinting,
//! pending-action buffers and spell casting.

use vstd::prelude::*;
use crate::entity_type::EntityType;
use crate::player_projectile::{PlayerProjectile, PROJECTILE_LIFETIME_US};
use crate::spell::Spell;
use crate::units::{
    add_coord, clamp_coord, displacement, scale_displacement, Vec2i, DT_MAX, MILLI, SPEED_MAX,
};

verus! {

/// Default jogging speed of a fresh player, in milli-units per second.
pub const PLAYER_JOG_SPEED: u64 = 2_680;

/// A connected player's character. The server owns the authoritative copy;
/// clients only ever receive its state in `PlayerData` messages.
#[derive(Clone, Debug)]
pub struct PlayerCharacter {
    /// Identifier; unique among all live entities of the world.
    pub id: u128,
    /// Display name, as raw bytes of the client-supplied text.
    pub name: Vec<u8>,
    /// Position in the world, in micro-units.
    pub position: Vec2i,
    /// Jogging speed, in milli-units per second.
    pub speed_stat: u64,
    /// Maximum health, in milli-points.
    pub health_stat: u64,
    /// Maximum mana, in milli-points.
    pub mana_stat: u64,
    /// Attack power, in milli-points.
    pub power_stat: u64,
    /// Health regeneration, in milli-points per second.
    pub vitality_stat: u64,
    /// Mana regeneration, in milli-points per second.
    pub wisdom_stat: u64,
    /// Attack rate, in milli-attacks per second.
    pub dexterity_stat: u64,
    /// Flat damage reduction, in milli-points.
    pub defense_stat: u64,
    /// Current speed: the jogging speed, doubled while sprinting.
    pub current_speed: u64,
    /// Current health, always in `[0, health_stat]`.
    pub current_health: u64,
    /// Current mana, always in `[0, mana_stat]`.
    pub current_mana: u64,
    /// Whether health has reached zero.
    pub is_dead: bool,
    /// Whether the sprint toggle is on.
    pub is_sprinting: bool,
    /// Mana cost of the basic attack, in milli-points.
    pub basic_cost: u64,
    /// Mana cost of the kinetic pulse, in milli-points.
    pub kenetic_pulse_cost: u64,
    /// Mana cost of the lightning bolt, in milli-points.
    pub lightning_cost: u64,
    /// Damage multiplier of the basic attack, milli-scale.
    pub basic_power_multi: u64,
    /// Damage multiplier of the kinetic pulse, milli-scale.
    pub kenetic_pulse_power_multi: u64,
    /// Damage multiplier of the lightning bolt, milli-scale.
    pub lightning_power_multi: u64,
    /// Pending movement direction (unit vector, milli-scale), consumed by the
    /// next simulation step.
    pub movement: Option<Vec2i>,
    /// Pending cast target (world coordinates, micro-units), consumed by the
    /// next simulation step.
    pub shootment: Option<Vec2i>,
}

impl PlayerCharacter {
    /// The character's invariant: current values clamped to their maxima, the
    /// current speed consistent with the sprint toggle, position and pending
    /// actions in range.
    pub open spec fn wf(self) -> bool {
        &&& self.name@.len() <= 255
        &&& self.position.wf()
        &&& self.current_health <= self.health_stat
        &&& self.current_mana <= self.mana_stat
        &&& self.speed_stat <= SPEED_MAX / 2
        &&& self.current_speed as int == (if self.is_sprinting {
            2 * self.speed_stat as int
        } else {
            self.speed_stat as int
        })
        &&& (self.movement matches Some(d) ==> -MILLI <= d.x <= MILLI && -MILLI <= d.y <= MILLI)
        &&& (self.shootment matches Some(t) ==> t.wf())
    }

    /// A fresh player character with the default stat block, standing at the
    /// origin with no pending actions. The name is capped at the wire
    /// format's length budget for names.
    pub fn new(name: Vec<u8>, id: u128) -> (r: PlayerCharacter)
        requires
            name@.len() <= 255,
        ensures
            r.id == id,
            r.name == name,
            r.position == (Vec2i { x: 0, y: 0 }),
            r.speed_stat == PLAYER_JOG_SPEED,
            r.health_stat == 100_000 && r.mana_stat == 100_000,
            r.power_stat == 10_000,
            r.vitality_stat == 1_000 && r.wisdom_stat == 2_500,
            r.dexterity_stat == 2_000 && r.defense_stat == 0,
            r.current_speed == PLAYER_JOG_SPEED,
            r.current_health == 1_000 && r.current_mana == 1_000,
            !r.is_dead && !r.is_sprinting,
            r.basic_cost == 0 && r.kenetic_pulse_cost == 10_000 && r.lightning_cost == 30_000,
            r.basic_power_multi == 1_000 && r.kenetic_pulse_power_multi == 2_000
                && r.lightning_power_multi == 5_000,
            r.movement is None && r.shootment is None,
            r.wf(),
    {
        PlayerCharacter {
            id,
            name,
            position: Vec2i { x: 0, y: 0 },
            speed_stat: PLAYER_JOG_SPEED,
            health_stat: 100_000,
            mana_stat: 100_000,
            power_stat: 10_000,
            vitality_stat: 1_000,
            wisdom_stat: 2_500,
            dexterity_stat: 2_000,
            defense_stat: 0,
            current_speed: PLAYER_JOG_SPEED,
            current_health: 1_000,
            current_mana: 1_000,
            is_dead: false,
            is_sprinting: false,
            basic_cost: 0,
            kenetic_pulse_cost: 10_000,
            lightning_cost: 30_000,
            basic_power_multi: 1_000,
            kenetic_pulse_power_multi: 2_000,
            lightning_power_multi: 5_000,
            movement: None,
            shootment: None,
        }
    }

    /// The character's identifier.
    pub fn get_uuid(&self) -> (r: u128)
        ensures
            r == self.id,
    {
        self.id
    }

    /// The display name, as the raw bytes of the client-supplied text.
    pub fn get_name(&self) -> (r: Vec<u8>)
        ensures
            r@ == self.name@,
    {
        let mut copy: Vec<u8> = Vec::new();
        let mut i: usize = 0;
        while i < self.name.len()
            invariant
                i <= self.name.len(),
                copy@ == self.name@.subrange(0, i as int),
            decreases self.name.len() - i,
        {
            copy.push(self.name[i]);
            proof {
                assert(copy@ =~= self.name@.subrange(0, i + 1 as int));
            }
            i = i + 1;
        }
        proof {
            assert(copy@ =~= self.name@);
        }
        copy
    }

    /// Where the character stands, in micro-unit world coordinates.
    pub fn get_position(&self) -> (r: Vec2i)
        ensures
            r == self.position,
    {
        self.position
    }

    /// The jogging speed stat, in milli-units per second.
    pub fn get_speed_stat(&self) -> (r: u64)
        ensures
            r == self.speed_stat,
    {
        self.speed_stat
    }

    /// The maximum health stat, in milli-points.
    pub fn get_health_stat(&self) -> (r: u64)
        ensures
            r == self.health_stat,
    {
        self.health_stat
    }

    /// The maximum mana stat, in milli-points.
    pub fn get_mana_stat(&self) -> (r: u64)
        ensures
            r == self.mana_stat,
    {
        self.mana_stat
    }

    /// The attack power stat, in milli-points.
    pub fn get_power_stat(&self) -> (r: u64)
        ensures
            r == self.power_stat,
    {
        self.power_stat
    }

    /// The health regeneration stat, in milli-points per second.
    pub fn get_vitality_stat(&self) -> (r: u64)
        ensures
            r == self.vitality_stat,
    {
        self.vitality_stat
    }

    /// The mana regeneration stat, in milli-points per second.
    pub fn get_wisdom_stat(&self) -> (r: u64)
        ensures
            r == self.wisdom_stat,
    {
        self.wisdom_stat
    }

    /// The attack rate stat, in milli-attacks per second.
    pub fn get_dexterity_stat(&self) -> (r: u64)
        ensures
            r == self.dexterity_stat,
    {
        self.dexterity_stat
    }

    /// The flat damage reduction stat, in milli-points.
    pub fn get_defense_stat(&self) -> (r: u64)
        ensures
            r == self.defense_stat,
    {
        self.defense_stat
    }

    /// The current speed: the jogging speed, doubled while sprinting.
    pub fn get_current_speed(&self) -> (r: u64)
        ensures
            r == self.current_speed,
    {
        self.current_speed
    }

    /// Whether health has reached zero.
    pub fn is_dead(&self) -> (r: bool)
        ensures
            r == self.is_dead,
    {
        self.is_dead
    }

    /// Whether the sprint toggle is on.
    pub fn is_sprinting(&self) -> (r: bool)
        ensures
            r == self.is_sprinting,
    {
        self.is_sprinting
    }

    /// Mana cost of the basic attack, in milli-points.
    pub fn get_basic_cost(&self) -> (r: u64)
        ensures
            r == self.basic_cost,
    {
        self.basic_cost
    }

    /// Mana cost of the kinetic pulse, in milli-points.
    pub fn get_kenetic_pulse_cost(&self) -> (r: u64)
        ensures
            r == self.kenetic_pulse_cost,
    {
        self.kenetic_pulse_cost
    }

    /// Mana cost of the lightning bolt, in milli-points.
    pub fn get_lightning_cost(&self) -> (r: u64)
        ensures
            r == self.lightning_cost,
    {
        self.lightning_cost
    }

    /// Damage multiplier of the basic attack, milli-scale.
    pub fn get_basic_multi(&self) -> (r: u64)
        ensures
            r == self.basic_power_multi,
    {
        self.basic_power_multi
    }

    /// Damage multiplier of the kinetic pulse, milli-scale.
    pub fn get_kenetic_pulse_multi(&self) -> (r: u64)
        ensures
            r == self.kenetic_pulse_power_multi,
    {
        self.kenetic_pulse_power_multi
    }

    /// Damage multiplier of the lightning bolt, milli-scale.
    pub fn get_lightning_multi(&self) -> (r: u64)
        ensures
            r == self.lightning_power_multi,
    {
        self.lightning_power_multi
    }

    /// The kind of entity a player appears as in snapshots.
    pub fn get_entity_type(&self) -> (r: EntityType)
        ensures
            r == EntityType::PlayerCharacter,
    {
        EntityType::PlayerCharacter
    }

    /// Current health, in milli-points.
    pub fn get_health(&self) -> (r: u64)
        ensures
            r == self.current_health,
    {
        self.current_health
    }

    /// Current mana, in milli-points.
    pub fn get_mana(&self) -> (r: u64)
        ensures
            r == self.current_mana,
    {
        self.current_mana
    }

    /// The pending movement direction, if any.
    pub fn get_movement(&self) -> (r: Option<Vec2i>)
        ensures
            r == self.movement,
    {
        self.movement
    }

    /// The pending cast target, if any.
    pub fn get_shootment(&self) -> (r: Option<Vec2i>)
        ensures
            r == self.shootment,
    {
        self.shootment
    }

    /// Buffers a movement direction for the next simulation step.
    pub fn set_movement(&mut self, direction: Option<Vec2i>)
        requires
            old(self).wf(),
            direction matches Some(d) ==> -MILLI <= d.x <= MILLI && -MILLI <= d.y <= MILLI,
        ensures
            *final(self) == (PlayerCharacter { movement: direction, ..*old(self) }),
            final(self).wf(),
    {
        self.movement = direction;
    }

    /// Buffers a cast target for the next simulation step.
    pub fn set_shootment(&mut self, location: Option<Vec2i>)
        requires
            old(self).wf(),
            location matches Some(t) ==> t.wf(),
        ensures
            *final(self) == (PlayerCharacter { shootment: location, ..*old(self) }),
            final(self).wf(),
    {
        self.shootment = location;
    }

    /// The mana cost of a spell for this player, in milli-points.
    pub open spec fn spec_mana_cost(self, spell: Spell) -> u64 {
        match spell {
            Spell::Basic => self.basic_cost,
            Spell::KeneticPulse => self.kenetic_pulse_cost,
            Spell::Lightning => self.lightning_cost,
        }
    }

    /// The mana cost of a spell for this player, in milli-points.
    pub fn get_mana_cost(&self, spell: &Spell) -> (r: u64)
        ensures
            r == self.spec_mana_cost(*spell),
    {
        match spell {
            Spell::Basic => self.basic_cost,
            Spell::KeneticPulse => self.kenetic_pulse_cost,
            Spell::Lightning => self.lightning_cost,
        }
    }

    /// The damage multiplier of a spell for this player, milli-scale.
    pub open spec fn spec_spell_power(self, spell: Spell) -> u64 {
        match spell {
            Spell::Basic => self.basic_power_multi,
            Spell::KeneticPulse => self.kenetic_pulse_power_multi,
            Spell::Lightning => self.lightning_power_multi,
        }
    }

    /// The damage multiplier of a spell for this player, milli-scale.
    pub fn get_spell_power(&self, spell: &Spell) -> (r: u64)
        ensures
            r == self.spec_spell_power(*spell),
    {
        match spell {
            Spell::Basic => self.basic_power_multi,
            Spell::KeneticPulse => self.kenetic_pulse_power_multi,
            Spell::Lightning => self.lightning_power_multi,
        }
    }

    /// What translating along `unit_vector` for `dt` microseconds does: each
    /// coordinate moves by the exact scaled displacement at the current
    /// speed, saturating at the world edge.
    pub open spec fn spec_translate(self, unit_vector: Vec2i, dt: u64) -> PlayerCharacter {
        PlayerCharacter {
            position: Vec2i {
                x: clamp_coord(
                    self.position.x + displacement(
                        unit_vector.x as int,
                        self.current_speed as int,
                        dt as int,
                    ),
                ) as i64,
                y: clamp_coord(
                    self.position.y + displacement(
                        unit_vector.y as int,
                        self.current_speed as int,
                        dt as int,
                    ),
                ) as i64,
            },
            ..self
        }
    }

    /// Moves the character along a unit direction vector for `dt`
    /// microseconds at its current speed.
    pub fn translate(&mut self, unit_vector: Vec2i, delta_time: u64)
        requires
            old(self).wf(),
            -MILLI <= unit_vector.x <= MILLI,
            -MILLI <= unit_vector.y <= MILLI,
            delta_time <= DT_MAX,
        ensures
            *final(self) == old(self).spec_translate(unit_vector, delta_time),
            final(self).wf(),
    {
        let dx: i64 = scale_displacement(unit_vector.x, self.current_speed, delta_time);
        let dy: i64 = scale_displacement(unit_vector.y, self.current_speed, delta_time);
        self.position = Vec2i {
            x: add_coord(self.position.x, dx),
            y: add_coord(self.position.y, dy),
        };
    }

    /// What one simulation step does to the character itself: a pending
    /// movement direction is consumed and walked; everything else is
    /// untouched.
    pub open spec fn spec_update(self, dt: u64) -> PlayerCharacter {
        match self.movement {
            Some(d) => PlayerCharacter { movement: None, ..self.spec_translate(d, dt) },
            None => self,
        }
    }

    /// One simulation step for the character itself: a pending movement
    /// direction is consumed and walked; everything else is untouched.
    pub fn update(&mut self, delta_time: u64)
        requires
            old(self).wf(),
            delta_time <= DT_MAX,
        ensures
            *final(self) == old(self).spec_update(delta_time),
            final(self).wf(),
    {
        match self.get_movement() {
            Some(direction) => {
                self.translate(direction, delta_time);
                self.movement = None;
            },
            None => (),
        }
    }

    /// Turns the sprint toggle on: current speed becomes twice the jogging
    /// speed. Does nothing when already sprinting.
    pub fn begin_sprint(&mut self)
        requires
            old(self).wf(),
        ensures
            *final(self) == (PlayerCharacter {
                is_sprinting: true,
                current_speed: (2 * old(self).speed_stat) as u64,
                ..*old(self)
            }),
            final(self).wf(),
    {
        if !self.is_sprinting {
            self.is_sprinting = true;
            self.current_speed = 2 * self.speed_stat;
        }
    }

    /// Turns the sprint toggle off: current speed falls back to the jogging
    /// speed. Does nothing when not sprinting.
    pub fn end_sprint(&mut self)
        requires
            old(self).wf(),
        ensures
            *final(self) == (PlayerCharacter {
                is_sprinting: false,
                current_speed: old(self).speed_stat,
                ..*old(self)
            }),
            final(self).wf(),
    {
        if self.is_sprinting {
            self.is_sprinting = false;
            self.current_speed = self.speed_stat;
        }
    }

    /// What taking `amount` damage does: health drops by the exact amount
    /// while it stays positive; otherwise it bottoms out at zero and the
    /// character is dead.
    pub open spec fn spec_decrease_health(self, amount: u64) -> PlayerCharacter {
        if self.current_health > amount {
            PlayerCharacter { current_health: (self.current_health - amount) as u64, ..self }
        } else {
            PlayerCharacter { current_health: 0, is_dead: true, ..self }
        }
    }

    /// Reduces health by `amount`, killing the character when it reaches
    /// zero. Health never leaves `[0, health_stat]`, and a dead character
    /// stays dead.
    pub fn decrease_health(&mut self, amount: u64)
        requires
            old(self).wf(),
        ensures
            *final(self) == old(self).spec_decrease_health(amount),
            final(self).wf(),
            old(self).is_dead ==> final(self).is_dead,
    {
        if self.current_health > amount {
            self.current_health = self.current_health - amount;
        } else {
            self.current_health = 0;
            self.is_dead = true;
        }
    }

    /// What healing by `amount` does: health rises by the exact amount while
    /// it stays below the maximum; otherwise it caps at the maximum.
    pub open spec fn spec_increase_health(self, amount: u64) -> PlayerCharacter {
        if self.current_health + amount < self.health_stat {
            PlayerCharacter { current_health: (self.current_health + amount) as u64, ..self }
        } else {
            PlayerCharacter { current_health: self.health_stat, ..self }
        }
    }

    /// Raises health by `amount`, never past the maximum.
    pub fn increase_health(&mut self, amount: u64)
        requires
            old(self).wf(),
        ensures
            *final(self) == old(self).spec_increase_health(amount),
            final(self).wf(),
    {
        if amount < self.health_stat - self.current_health {
            self.current_health = self.current_health + amount;
        } else {
            self.current_health = self.health_stat;
        }
    }

    /// What draining `amount` mana does: mana drops by the exact amount while
    /// it stays positive; otherwise it bottoms out at zero.
    pub open spec fn spec_decrease_mana(self, amount: u64) -> PlayerCharacter {
        if self.current_mana > amount {
            PlayerCharacter { current_mana: (self.current_mana - amount) as u64, ..self }
        } else {
            PlayerCharacter { current_mana: 0, ..self }
        }
    }

    /// Reduces mana by `amount`, never below zero.
    pub fn decrease_mana(&mut self, amount: u64)
        requires
            old(self).wf(),
        ensures
            *final(self) == old(self).spec_decrease_mana(amount),
            final(self).wf(),
    {
        if self.current_mana > amount {
            self.current_mana = self.current_mana - amount;
        } else {
            self.current_mana = 0;
        }
    }

    /// What restoring `amount` mana does: mana rises by the exact amount
    /// while it stays below the maximum; otherwise it caps at the maximum.
    pub open spec fn spec_increase_mana(self, amount: u64) -> PlayerCharacter {
        if self.current_mana + amount < self.mana_stat {
            PlayerCharacter { current_mana: (self.current_mana + amount) as u64, ..self }
        } else {
            PlayerCharacter { current_mana: self.mana_stat, ..self }
        }
    }

    /// Raises mana by `amount`, never past the maximum.
    pub fn increase_mana(&mut self, amount: u64)
        requires
            old(self).wf(),
        ensures
            *final(self) == old(self).spec_increase_mana(amount),
            final(self).wf(),
    {
        if amount < self.mana_stat - self.current_mana {
            self.current_mana = self.current_mana + amount;
        } else {
            self.current_mana = self.mana_stat;
        }
    }

    /// Reduces health by `amount`; the same operation as
    /// [`Self::decrease_health`].
    pub fn hurt(&mut self, amount: u64)
        requires
            old(self).wf(),
        ensures
            *final(self) == old(self).spec_decrease_health(amount),
            final(self).wf(),
            old(self).is_dead ==> final(self).is_dead,
    {
        self.decrease_health(amount);
    }

    /// Raises health by `amount`; the same operation as
    /// [`Self::increase_health`].
    pub fn heal(&mut self, amount: u64)
        requires
            old(self).wf(),
        ensures
            *final(self) == old(self).spec_increase_health(amount),
            final(self).wf(),
    {
        self.increase_health(amount);
    }

    /// Reduces mana by `amount`; the same operation as
    /// [`Self::decrease_mana`].
    pub fn drain(&mut self, amount: u64)
        requires
            old(self).wf(),
        ensures
            *final(self) == old(self).spec_decrease_mana(amount),
            final(self).wf(),
    {
        self.decrease_mana(amount);
    }

    /// Raises mana by `amount`; the same operation as
    /// [`Self::increase_mana`].
    pub fn energize(&mut self, amount: u64)
        requires
            old(self).wf(),
        ensures
            *final(self) == old(self).spec_increase_mana(amount),
            final(self).wf(),
    {
        self.increase_mana(amount);
    }

    /// Whether the player has the mana to cast `spell`: true exactly when
    /// current mana is at least the spell's cost.
    pub fn can_cast(&self, spell: &Spell) -> (r: bool)
        ensures
            r == (self.current_mana >= self.spec_mana_cost(*spell)),
    {
        self.current_mana >= self.get_mana_cost(spell)
    }

    /// Attempts to cast `spell` without spawning anything: returns whether
    /// the mana sufficed, deducting the exact cost when it did and changing
    /// nothing when it did not.
    pub fn try_cast(&mut self, spell: Spell) -> (r: bool)
        requires
            old(self).wf(),
        ensures
            r == (old(self).current_mana >= old(self).spec_mana_cost(spell)),
            r ==> *final(self) == old(self).spec_decrease_mana(old(self).spec_mana_cost(spell)),
            !r ==> *final(self) == *old(self),
            final(self).wf(),
    {
        if self.can_cast(&spell) {
            let cost = self.get_mana_cost(&spell);
            self.decrease_mana(cost);
            true
        } else {
            false
        }
    }

    /// Casts `spell` towards the unit vector `direction` at simulation time
    /// `now`, with `id` as the new projectile's identifier. When the player
    /// has the mana, the cost is deducted exactly and exactly one projectile
    /// is returned; otherwise nothing changes and no projectile is spawned.
    pub fn cast_spell(&mut self, spell: Spell, direction: Vec2i, id: u128, now: u64) -> (r: Option<
        PlayerProjectile,
    >)
        requires
            old(self).wf(),
            -MILLI <= direction.x <= MILLI,
            -MILLI <= direction.y <= MILLI,
            now <= u64::MAX - PROJECTILE_LIFETIME_US,
        ensures
            final(self).wf(),
            old(self).current_mana >= old(self).spec_mana_cost(spell) ==> {
                &&& *final(self) == old(self).spec_decrease_mana(old(self).spec_mana_cost(spell))
                &&& final(self).current_mana == old(self).current_mana - old(self).spec_mana_cost(
                    spell,
                )
                &&& r == Some(
                    PlayerProjectile::spec_new_projectile(
                        old(self).position,
                        direction,
                        spell,
                        id,
                        now,
                    ),
                )
            },
            old(self).current_mana < old(self).spec_mana_cost(spell) ==> {
                &&& *final(self) == *old(self)
                &&& r is None
            },
    {
        if self.can_cast(&spell) {
            let cost: u64 = self.get_mana_cost(&spell);
            self.decrease_mana(cost);
            Some(PlayerProjectile::new(self.position, direction, spell, id, now))
        } else {
            None
        }
    }
}

/// Health and mana clamping: whatever damage, healing, drain or restoration
/// is applied to a well-formed character, the current values never leave
/// `[0, max]`; and once health has reached zero, further damage keeps the
/// character dead.
pub proof fn lemma_vital_clamping(p: PlayerCharacter, amount: u64)
    requires
        p.wf(),
    ensures
        p.spec_decrease_health(amount).wf(),
        0 <= p.spec_decrease_health(amount).current_health <= p.health_stat,
        p.spec_increase_health(amount).wf(),
        0 <= p.spec_increase_health(amount).current_health <= p.health_stat,
        p.spec_decrease_mana(amount).wf(),
        0 <= p.spec_decrease_mana(amount).current_mana <= p.mana_stat,
        p.spec_increase_mana(amount).wf(),
        0 <= p.spec_increase_mana(amount).current_mana <= p.mana_stat,
        p.is_dead ==> p.spec_decrease_health(amount).is_dead,
        p.spec_decrease_health(amount).current_health == 0 ==> p.spec_decrease_health(
            amount,
        ).is_dead == true || p.current_health == 0,
        p.current_health == 0 ==> p.spec_decrease_health(amount).is_dead,
{
}

} // verus!
