//! Enemy characters: four balance presets, crude pathfinding and the basic
//! attack, whose effect depends on the enemy's type.

use vstd::prelude::*;
use crate::entity_type::EntityType;
use crate::player_character::PlayerCharacter;
use crate::units::{
    add_coord, clamp_coord, displacement, scale_displacement, Vec2i, DT_MAX, MILLI, SPEED_MAX,
};

verus! {

/// Largest stat value an enemy can carry, in milli-points.
pub const ENEMY_STAT_MAX: u64 = 1_000_000_000_000;

/// The numerator of the basic attack's scale factor: attacks land for
/// three quarters of the attacker's power.
pub const BASIC_ATTACK_SCALE_NUM: u64 = 3;

/// The denominator of the basic attack's scale factor.
pub const BASIC_ATTACK_SCALE_DEN: u64 = 4;

/// The four enemy balance presets.
#[derive(Clone, Copy, Debug, PartialEq, Eq, Structural)]
pub enum EnemyType {
    /// Standard stats all around.
    Ghoul,
    /// Slow, beefy, higher power.
    Phantom,
    /// A little faster than average; heals itself by attacking.
    Drinker,
    /// Fast, high damage, low health; spawns at half health.
    Crawler,
}

/// A hostile character of the world.
#[derive(Clone, Debug)]
pub struct EnemyCharacter {
    /// Identifier; unique among all live entities of the world.
    pub id: u128,
    /// The balance preset this enemy was spawned with.
    pub enemy_type: EnemyType,
    /// Position in the world, in micro-units.
    pub position: Vec2i,
    /// Speed, in milli-units per second.
    pub speed: u64,
    /// Whether health has reached zero.
    pub is_dead: bool,
    /// Current health, always in `[0, max_health]`, in milli-points.
    pub current_health: u64,
    /// Maximum health, in milli-points.
    pub max_health: u64,
    /// Attack power its attacks scale off, in milli-points.
    pub power: u64,
}

impl EnemyCharacter {
    /// The enemy's invariant: position in range, health clamped to its
    /// maximum, speed and power within the simulation bounds.
    pub open spec fn wf(self) -> bool {
        &&& self.position.wf()
        &&& self.current_health <= self.max_health
        &&& self.speed <= SPEED_MAX
        &&& self.power <= ENEMY_STAT_MAX
    }

    /// An enemy of the given type at `position`, carrying that type's preset
    /// stat block: the Ghoul is the 100-health baseline, the Phantom slow and
    /// beefy, the Drinker quick and spawned at half health, the Crawler fast,
    /// hard-hitting and fragile.
    pub fn new(enemy_type: EnemyType, position: Vec2i, id: u128) -> (r: EnemyCharacter)
        requires
            position.wf(),
        ensures
            r.id == id && r.enemy_type == enemy_type && r.position == position && !r.is_dead,
            enemy_type == EnemyType::Ghoul ==> r.speed == 2_500 && r.current_health == 100_000
                && r.max_health == 100_000 && r.power == 10_000,
            enemy_type == EnemyType::Phantom ==> r.speed == 1_750 && r.current_health == 200_000
                && r.max_health == 200_000 && r.power == 20_000,
            enemy_type == EnemyType::Drinker ==> r.speed == 3_500 && r.current_health == 75_000
                && r.max_health == 150_000 && r.power == 7_500,
            enemy_type == EnemyType::Crawler ==> r.speed == 8_000 && r.current_health == 50_000
                && r.max_health == 50_000 && r.power == 33_500,
            r.wf(),
    {
        match enemy_type {
            EnemyType::Ghoul => EnemyCharacter {
                id,
                enemy_type,
                position,
                speed: 2_500,
                is_dead: false,
                current_health: 100_000,
                max_health: 100_000,
                power: 10_000,
            },
            EnemyType::Phantom => EnemyCharacter {
                id,
                enemy_type,
                position,
                speed: 1_750,
                is_dead: false,
                current_health: 200_000,
                max_health: 200_000,
                power: 20_000,
            },
            EnemyType::Drinker => EnemyCharacter {
                id,
                enemy_type,
                position,
                speed: 3_500,
                is_dead: false,
                current_health: 75_000,
                max_health: 150_000,
                power: 7_500,
            },
            EnemyType::Crawler => EnemyCharacter {
                id,
                enemy_type,
                position,
                speed: 8_000,
                is_dead: false,
                current_health: 50_000,
                max_health: 50_000,
                power: 33_500,
            },
        }
    }

    /// Where the enemy stands, in micro-unit world coordinates.
    pub fn get_position(&self) -> (r: Vec2i)
        ensures
            r == self.position,
    {
        self.position
    }

    /// Current health, in milli-points.
    pub fn get_health(&self) -> (r: u64)
        ensures
            r == self.current_health,
    {
        self.current_health
    }

    /// The enemy's identifier.
    pub fn get_uuid(&self) -> (r: u128)
        ensures
            r == self.id,
    {
        self.id
    }

    /// The kind of entity this enemy appears as in snapshots.
    pub fn get_entity_type(&self) -> (r: EntityType)
        ensures
            r == spec_enemy_entity_type(self.enemy_type),
    {
        match self.enemy_type {
            EnemyType::Ghoul => EntityType::Ghoul,
            EnemyType::Phantom => EntityType::Phantom,
            EnemyType::Drinker => EntityType::Drinker,
            EnemyType::Crawler => EntityType::Crawler,
        }
    }

    /// What translating along `unit_vector` for `dt` microseconds does: each
    /// coordinate moves by the exact scaled displacement at the enemy's
    /// speed, saturating at the world edge.
    pub open spec fn spec_translate(self, unit_vector: Vec2i, dt: u64) -> EnemyCharacter {
        EnemyCharacter {
            position: Vec2i {
                x: clamp_coord(
                    self.position.x + displacement(
                        unit_vector.x as int,
                        self.speed as int,
                        dt as int,
                    ),
                ) as i64,
                y: clamp_coord(
                    self.position.y + displacement(
                        unit_vector.y as int,
                        self.speed as int,
                        dt as int,
                    ),
                ) as i64,
            },
            ..self
        }
    }

    /// Moves the enemy along a unit direction vector for `dt` microseconds.
    pub fn translate(&mut self, unit_vector: Vec2i, delta_time: u64)
        requires
            old(self).wf(),
            -MILLI <= unit_vector.x <= MILLI,
            -MILLI <= unit_vector.y <= MILLI,
            delta_time <= DT_MAX,
        ensures
            *final(self) == old(self).spec_translate(unit_vector, delta_time),
            final(self).wf(),
    {
        let dx: i64 = scale_displacement(unit_vector.x, self.speed, delta_time);
        let dy: i64 = scale_displacement(unit_vector.y, self.speed, delta_time);
        self.position = Vec2i {
            x: add_coord(self.position.x, dx),
            y: add_coord(self.position.y, dy),
        };
    }

    /// The unit vector pathfinding follows: the normalized difference from
    /// the enemy to the player, in milli-scale components.
    pub open spec fn spec_chase_vector(self, player: PlayerCharacter) -> Vec2i {
        crate::units::spec_normalize(
            Vec2i {
                x: (player.position.x - self.position.x) as i64,
                y: (player.position.y - self.position.y) as i64,
            },
        )
    }

    /// Pathfinding: walks straight at the player, translating along the
    /// normalized vector from the enemy to the player. An enemy standing
    /// exactly on the player has no direction to it and stays put.
    pub fn move_towards_player(&mut self, player_character: &PlayerCharacter, delta_time: u64)
        requires
            old(self).wf(),
            player_character.wf(),
            delta_time <= DT_MAX,
        ensures
            old(self).position == player_character.position ==> *final(self) == *old(self),
            old(self).position != player_character.position ==> *final(self) == old(
                self,
            ).spec_translate(old(self).spec_chase_vector(*player_character), delta_time),
            final(self).wf(),
    {
        let vector_to_player = Vec2i {
            x: player_character.position.x - self.position.x,
            y: player_character.position.y - self.position.y,
        };
        if vector_to_player.x == 0 && vector_to_player.y == 0 {
            return ;
        }
        let unit_vec = crate::units::normalize_direction(vector_to_player);
        self.translate(unit_vec, delta_time);
    }

    /// What taking `amount` damage does: health drops by the exact amount
    /// while it stays positive; otherwise it bottoms out at zero and the
    /// enemy is dead.
    pub open spec fn spec_decrease_health(self, amount: u64) -> EnemyCharacter {
        if self.current_health > amount {
            EnemyCharacter { current_health: (self.current_health - amount) as u64, ..self }
        } else {
            EnemyCharacter { current_health: 0, is_dead: true, ..self }
        }
    }

    /// Reduces health by `amount`, killing the enemy when it reaches zero.
    pub fn decrease_health(&mut self, amount: u64)
        requires
            old(self).wf(),
        ensures
            *final(self) == old(self).spec_decrease_health(amount),
            final(self).wf(),
            old(self).is_dead ==> final(self).is_dead,
    {
        if self.current_health > amount {
            self.current_health = self.current_health - amount;
        } else {
            self.current_health = 0;
            self.is_dead = true;
        }
    }

    /// What healing by `amount` does: health rises by the exact amount while
    /// it stays below the maximum; otherwise it caps at the maximum.
    pub open spec fn spec_increase_health(self, amount: u64) -> EnemyCharacter {
        if self.current_health + amount < self.max_health {
            EnemyCharacter { current_health: (self.current_health + amount) as u64, ..self }
        } else {
            EnemyCharacter { current_health: self.max_health, ..self }
        }
    }

    /// Raises health by `amount`, never past the maximum.
    pub fn increase_health(&mut self, amount: u64)
        requires
            old(self).wf(),
        ensures
            *final(self) == old(self).spec_increase_health(amount),
            final(self).wf(),
    {
        if amount < self.max_health - self.current_health {
            self.current_health = self.current_health + amount;
        } else {
            self.current_health = self.max_health;
        }
    }

    /// Reduces health by `amount`; the same operation as
    /// [`Self::decrease_health`].
    pub fn hurt(&mut self, amount: u64)
        requires
            old(self).wf(),
        ensures
            *final(self) == old(self).spec_decrease_health(amount),
            final(self).wf(),
    {
        self.decrease_health(amount);
    }

    /// Raises health by `amount`; the same operation as
    /// [`Self::increase_health`].
    pub fn heal(&mut self, amount: u64)
        requires
            old(self).wf(),
        ensures
            *final(self) == old(self).spec_increase_health(amount),
            final(self).wf(),
    {
        self.increase_health(amount);
    }

    /// How hard this enemy's basic attack lands: three quarters of its power,
    /// in milli-points.
    pub open spec fn spec_attack_amount(self) -> int {
        (self.power * BASIC_ATTACK_SCALE_NUM) as int / BASIC_ATTACK_SCALE_DEN as int
    }

    /// The basic attack. Every enemy type damages the target by three
    /// quarters of its power; the Drinker additionally heals itself by the
    /// same amount, capped at its maximum health. No other type changes its
    /// own state.
    pub fn basic_attack(&mut self, player_character: &mut PlayerCharacter)
        requires
            old(self).wf(),
            old(player_character).wf(),
        ensures
            final(self).wf(),
            final(player_character).wf(),
            *final(player_character) == old(player_character).spec_decrease_health(
                old(self).spec_attack_amount() as u64,
            ),
            old(self).enemy_type == EnemyType::Drinker ==> *final(self) == old(
                self,
            ).spec_increase_health(old(self).spec_attack_amount() as u64),
            old(self).enemy_type != EnemyType::Drinker ==> *final(self) == *old(self),
    {
        let attack_amount: u64 = self.power * BASIC_ATTACK_SCALE_NUM / BASIC_ATTACK_SCALE_DEN;
        match self.enemy_type {
            EnemyType::Ghoul => player_character.decrease_health(attack_amount),
            EnemyType::Phantom => player_character.decrease_health(attack_amount),
            EnemyType::Drinker => {
                player_character.decrease_health(attack_amount);
                self.increase_health(attack_amount);
            },
            EnemyType::Crawler => player_character.decrease_health(attack_amount),
        }
    }
}


/// Health clamping for enemies: whatever damage or healing is applied to a
/// well-formed enemy, its health never leaves `[0, max_health]`; and once
/// health has reached zero, further damage keeps the enemy dead.
pub proof fn lemma_enemy_vital_clamping(e: EnemyCharacter, amount: u64)
    requires
        e.wf(),
    ensures
        e.spec_decrease_health(amount).wf(),
        0 <= e.spec_decrease_health(amount).current_health <= e.max_health,
        e.spec_increase_health(amount).wf(),
        0 <= e.spec_increase_health(amount).current_health <= e.max_health,
        e.is_dead ==> e.spec_decrease_health(amount).is_dead,
        e.current_health == 0 ==> e.spec_decrease_health(amount).is_dead,
{
}

/// The kind of snapshot entity each enemy type appears as.
pub open spec fn spec_enemy_entity_type(t: EnemyType) -> EntityType {
    match t {
        EnemyType::Ghoul => EntityType::Ghoul,
        EnemyType::Phantom => EntityType::Phantom,
        EnemyType::Drinker => EntityType::Drinker,
        EnemyType::Crawler => EntityType::Crawler,
    }
}

} // verus!
