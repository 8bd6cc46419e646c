//! The high-level interface for spawning game entities into a world: it draws
//! a fresh identifier, builds the entity and inserts it, refusing the insert
//! on the (vanishingly unlikely) identifier collision.

use vstd::prelude::*;
use crate::enemy_character::{EnemyCharacter, EnemyType};
use crate::game_world::GameWorld;
use crate::player_character::PlayerCharacter;
use crate::player_projectile::{PlayerProjectile, PROJECTILE_LIFETIME_US};
use crate::spell::Spell;
use crate::units::{Vec2i, MILLI};

verus! {

/// Spawns game entities into a world. Every method draws a fresh random
/// identifier, builds the entity and inserts it; it returns whether the
/// entity entered the world, which fails only when the drawn identifier is
/// already in use.
pub struct GameEntityFactory {}

impl GameEntityFactory {
    /// Spawns a ghoul at `position`.
    pub fn create_ghoul(position: Vec2i, game_world: &mut GameWorld) -> (added: bool)
        requires
            old(game_world).wf(),
            position.wf(),
        ensures
            final(game_world).wf(),
            added ==> final(game_world).enemy_characters@.len() == old(
                game_world,
            ).enemy_characters@.len() + 1,
            added ==> final(game_world).enemy_characters@ == old(
                game_world,
            ).enemy_characters@.push(final(game_world).enemy_characters@.last()),
            added ==> final(game_world).enemy_characters@.last().enemy_type == EnemyType::Ghoul,
            added ==> final(game_world).enemy_characters@.last().position == position,
            added ==> final(game_world).player_characters == old(game_world).player_characters,
            added ==> final(game_world).player_projectiles == old(game_world).player_projectiles,
            added ==> final(game_world).clock == old(game_world).clock,
            !added ==> *final(game_world) == *old(game_world),
    {
        let id = crate::ids::fresh_uuid();
        let ghoul = EnemyCharacter::new(EnemyType::Ghoul, position, id);
        game_world.add_enemy_character(ghoul)
    }

    /// Spawns a fresh player character named `name` under the given
    /// identifier, at the origin with the default stat block.
    pub fn create_new_player_character(name: Vec<u8>, id: u128, game_world: &mut GameWorld) -> (added: bool)
        requires
            old(game_world).wf(),
            name@.len() <= 255,
        ensures
            final(game_world).wf(),
            added == !old(game_world).spec_has_id(id),
            added ==> final(game_world).player_characters@.len() == old(
                game_world,
            ).player_characters@.len() + 1,
            added ==> final(game_world).player_characters@ == old(
                game_world,
            ).player_characters@.push(final(game_world).player_characters@.last()),
            added ==> final(game_world).player_characters@.last().id == id,
            added ==> final(game_world).player_characters@.last().name@ == name@,
            added ==> final(game_world).player_characters@.last().position == (Vec2i {
                x: 0,
                y: 0,
            }),
            added ==> final(game_world).player_projectiles == old(game_world).player_projectiles,
            added ==> final(game_world).enemy_characters == old(game_world).enemy_characters,
            added ==> final(game_world).clock == old(game_world).clock,
            !added ==> *final(game_world) == *old(game_world),
    {
        let player = PlayerCharacter::new(name, id);
        game_world.add_player_character(player)
    }

    /// Spawns a basic attack projectile at `position` flying along the unit
    /// vector `direction`.
    pub fn create_basic(position: Vec2i, direction: Vec2i, game_world: &mut GameWorld) -> (added: bool)
        requires
            old(game_world).wf(),
            position.wf(),
            -MILLI <= direction.x <= MILLI,
            -MILLI <= direction.y <= MILLI,
            old(game_world).clock <= u64::MAX - PROJECTILE_LIFETIME_US,
        ensures
            final(game_world).wf(),
            added ==> final(game_world).player_projectiles@ == old(
                game_world,
            ).player_projectiles@.push(final(game_world).player_projectiles@.last()),
            added ==> final(game_world).player_projectiles@.last() == (
            PlayerProjectile::spec_new_projectile(
                position,
                direction,
                Spell::Basic,
                final(game_world).player_projectiles@.last().id,
                old(game_world).clock,
            )),
            added ==> final(game_world).player_characters == old(game_world).player_characters,
            added ==> final(game_world).enemy_characters == old(game_world).enemy_characters,
            added ==> final(game_world).clock == old(game_world).clock,
            !added ==> *final(game_world) == *old(game_world),
    {
        let id = crate::ids::fresh_uuid();
        let projectile = PlayerProjectile::new(position, direction, Spell::Basic, id, game_world.clock);
        game_world.add_player_projectile(projectile)
    }

    /// Spawns a kinetic pulse projectile at `position` flying along the unit
    /// vector `direction`.
    pub fn create_kenetic_pulse(position: Vec2i, direction: Vec2i, game_world: &mut GameWorld) -> (added: bool)
        requires
            old(game_world).wf(),
            position.wf(),
            -MILLI <= direction.x <= MILLI,
            -MILLI <= direction.y <= MILLI,
            old(game_world).clock <= u64::MAX - PROJECTILE_LIFETIME_US,
        ensures
            final(game_world).wf(),
            added ==> final(game_world).player_projectiles@ == old(
                game_world,
            ).player_projectiles@.push(final(game_world).player_projectiles@.last()),
            added ==> final(game_world).player_projectiles@.last() == (
            PlayerProjectile::spec_new_projectile(
                position,
                direction,
                Spell::KeneticPulse,
                final(game_world).player_projectiles@.last().id,
                old(game_world).clock,
            )),
            added ==> final(game_world).player_characters == old(game_world).player_characters,
            added ==> final(game_world).enemy_characters == old(game_world).enemy_characters,
            added ==> final(game_world).clock == old(game_world).clock,
            !added ==> *final(game_world) == *old(game_world),
    {
        let id = crate::ids::fresh_uuid();
        let projectile = PlayerProjectile::new(
            position,
            direction,
            Spell::KeneticPulse,
            id,
            game_world.clock,
        );
        game_world.add_player_projectile(projectile)
    }

    /// Spawns a lightning projectile at `position` flying along the unit
    /// vector `direction`.
    pub fn create_lightning(position: Vec2i, direction: Vec2i, game_world: &mut GameWorld) -> (added: bool)
        requires
            old(game_world).wf(),
            position.wf(),
            -MILLI <= direction.x <= MILLI,
            -MILLI <= direction.y <= MILLI,
            old(game_world).clock <= u64::MAX - PROJECTILE_LIFETIME_US,
        ensures
            final(game_world).wf(),
            added ==> final(game_world).player_projectiles@ == old(
                game_world,
            ).player_projectiles@.push(final(game_world).player_projectiles@.last()),
            added ==> final(game_world).player_projectiles@.last() == (
            PlayerProjectile::spec_new_projectile(
                position,
                direction,
                Spell::Lightning,
                final(game_world).player_projectiles@.last().id,
                old(game_world).clock,
            )),
            added ==> final(game_world).player_characters == old(game_world).player_characters,
            added ==> final(game_world).enemy_characters == old(game_world).enemy_characters,
            added ==> final(game_world).clock == old(game_world).clock,
            !added ==> *final(game_world) == *old(game_world),
    {
        let id = crate::ids::fresh_uuid();
        let projectile = PlayerProjectile::new(
            position,
            direction,
            Spell::Lightning,
            id,
            game_world.clock,
        );
        game_world.add_player_projectile(projectile)
    }
}

} // verus!
