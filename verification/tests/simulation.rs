//! The simulation's arithmetic: interpolation, the fixed-tick accounting,
//! health and mana clamping, cast gating, projectile lifecycle and the
//! type-specific enemy attack, each on concrete values.

use gamesync::client_gateway::{direction_from_input, EntityGraphic};
use gamesync::enemy_character::{EnemyCharacter, EnemyType};
use gamesync::entity_type::EntityType;
use gamesync::player_character::PlayerCharacter;
use gamesync::player_projectile::{PlayerProjectile, PROJECTILE_LIFETIME_US};
use gamesync::spell::Spell;
use gamesync::tick::{FixedTickLoop, TICK_PERIOD_US};
use gamesync::units::{add_coord, lerp_coord, normalize_direction, Vec2i, COORD_MAX};

#[test]
fn interpolation_hits_both_endpoints_and_moves_monotonically() {
    let g = EntityGraphic::new(
        Vec2i { x: 0, y: -1_000_000 },
        Vec2i { x: 64_000, y: 1_000_000 },
        EntityType::PlayerCharacter,
    );
    // at factor zero the draw position is exactly the current position
    let start = g.draw_position(0, TICK_PERIOD_US);
    assert_eq!(start, Vec2i { x: 0, y: -1_000_000 });
    // at factor one it is exactly the next position
    let end = g.draw_position(TICK_PERIOD_US, TICK_PERIOD_US);
    assert_eq!(end, Vec2i { x: 64_000, y: 1_000_000 });
    // half way it is the exact midpoint of this segment
    let mid = g.draw_position(TICK_PERIOD_US / 2, TICK_PERIOD_US);
    assert!((mid.x - 32_000).abs() <= 4);
    // along the way it never moves backwards and stays on the segment
    let mut prev_x = i64::MIN;
    let mut num: u64 = 0;
    while num <= TICK_PERIOD_US {
        let p = g.draw_position(num, TICK_PERIOD_US);
        assert!(p.x >= prev_x);
        assert!(p.x >= 0 && p.x <= 64_000);
        prev_x = p.x;
        num += 625;
    }
}

#[test]
fn lerp_is_exact_on_simple_fractions() {
    assert_eq!(lerp_coord(0, 1000, 0, 64), 0);
    assert_eq!(lerp_coord(0, 1000, 64, 64), 1000);
    assert_eq!(lerp_coord(0, 1000, 32, 64), 500);
    assert_eq!(lerp_coord(1000, 0, 32, 64), 500);
    assert_eq!(lerp_coord(-1000, 1000, 16, 64), -500);
}

#[test]
fn fixed_tick_accounting_matches_floor_and_remainder() {
    let mut t = FixedTickLoop::new(TICK_PERIOD_US);
    // one tick's worth plus some change yields one step and the remainder
    assert_eq!(t.advance(20_000), 1);
    assert_eq!(t.interpolation_factor(), (4_375, TICK_PERIOD_US));
    // not enough for a new tick: zero steps, accumulator grows
    assert_eq!(t.advance(10_000), 0);
    assert_eq!(t.interpolation_factor(), (14_375, TICK_PERIOD_US));
    // a long stall runs several steps back to back
    assert_eq!(t.advance(4 * TICK_PERIOD_US), 4);
    assert_eq!(t.interpolation_factor(), (14_375, TICK_PERIOD_US));
    // total: 92500 elapsed == 5 steps * 15625 + 14375
    let (carry, period) = t.interpolation_factor();
    assert_eq!(5 * period + carry, 92_500);
    assert!(carry < period);
}

#[test]
fn health_and_mana_stay_clamped_and_death_is_final() {
    let mut p = PlayerCharacter::new(b"clamp".to_vec(), 1);
    assert_eq!(p.get_health(), 1_000);
    p.increase_health(250_000);
    assert_eq!(p.get_health(), 100_000);
    p.decrease_health(40_000);
    assert_eq!(p.get_health(), 60_000);
    assert!(!p.is_dead());
    p.decrease_health(u64::MAX);
    assert_eq!(p.get_health(), 0);
    assert!(p.is_dead());
    // healing restores health but death stands under further damage
    p.heal(5_000);
    assert_eq!(p.get_health(), 5_000);
    p.hurt(5_000);
    assert_eq!(p.get_health(), 0);
    assert!(p.is_dead());
    // mana clamps the same way
    p.increase_mana(u64::MAX);
    assert_eq!(p.get_mana(), 100_000);
    p.decrease_mana(99_999);
    assert_eq!(p.get_mana(), 1);
    p.drain(10);
    assert_eq!(p.get_mana(), 0);
    p.energize(7);
    assert_eq!(p.get_mana(), 7);
}

#[test]
fn cast_gating_charges_exactly_the_cost() {
    let mut p = PlayerCharacter::new(b"caster".to_vec(), 2);
    p.increase_mana(100_000);
    assert_eq!(p.get_mana(), 100_000);
    assert!(p.can_cast(&Spell::Basic));
    assert!(p.can_cast(&Spell::KeneticPulse));
    assert!(p.can_cast(&Spell::Lightning));
    let proj = p.cast_spell(Spell::Lightning, Vec2i { x: 1000, y: 0 }, 55, 0);
    let proj = proj.expect("a funded cast spawns exactly one projectile");
    assert_eq!(proj.get_uuid(), 55);
    assert_eq!(proj.get_entity_type(), EntityType::Lightning);
    assert_eq!(p.get_mana(), 70_000);
    // drain below the lightning cost: the cast is refused and nothing changes
    p.decrease_mana(41_000);
    assert_eq!(p.get_mana(), 29_000);
    assert!(!p.can_cast(&Spell::Lightning));
    let refused = p.cast_spell(Spell::Lightning, Vec2i { x: 1000, y: 0 }, 56, 0);
    assert!(refused.is_none());
    assert_eq!(p.get_mana(), 29_000);
    // try_cast applies the same gate
    assert!(p.try_cast(Spell::KeneticPulse));
    assert_eq!(p.get_mana(), 19_000);
    assert!(!p.try_cast(Spell::Lightning));
    assert_eq!(p.get_mana(), 19_000);
}

#[test]
fn projectile_expires_at_its_deadline_and_not_before() {
    let t0: u64 = 500_000;
    let mut proj = PlayerProjectile::new(
        Vec2i { x: 0, y: 0 },
        Vec2i { x: 1000, y: 0 },
        Spell::Basic,
        9,
        t0,
    );
    assert!(!proj.is_expired());
    // just before the deadline it still flies
    proj.update(TICK_PERIOD_US, t0 + PROJECTILE_LIFETIME_US - 1);
    assert!(!proj.is_expired());
    let x_before = proj.get_position().x;
    assert!(x_before > 0);
    // the first update at the deadline marks it expired and freezes it
    proj.update(TICK_PERIOD_US, t0 + PROJECTILE_LIFETIME_US);
    assert!(proj.is_expired());
    assert_eq!(proj.get_position().x, x_before);
    proj.update(TICK_PERIOD_US, t0 + PROJECTILE_LIFETIME_US + 50_000);
    assert!(proj.is_expired());
    assert_eq!(proj.get_position().x, x_before);
}

#[test]
fn projectile_translation_is_exact() {
    // 10 units/s for one tick of 15.625 ms is exactly 156250 micro-units
    let mut proj = PlayerProjectile::new(
        Vec2i { x: 0, y: 0 },
        Vec2i { x: 1000, y: 0 },
        Spell::Basic,
        10,
        0,
    );
    proj.translate(TICK_PERIOD_US);
    assert_eq!(proj.get_position(), Vec2i { x: 156_250, y: 0 });
}

#[test]
fn drinker_heals_itself_by_its_attack_and_others_do_not() {
    let mut player = PlayerCharacter::new(b"victim".to_vec(), 3);
    player.increase_health(u64::MAX);
    assert_eq!(player.get_health(), 100_000);

    // the drinker lands power * 3/4 = 5625 and heals itself by the same
    let mut drinker = EnemyCharacter::new(EnemyType::Drinker, Vec2i { x: 0, y: 0 }, 4);
    assert_eq!(drinker.get_health(), 75_000);
    drinker.basic_attack(&mut player);
    assert_eq!(player.get_health(), 100_000 - 5_625);
    assert_eq!(drinker.get_health(), 75_000 + 5_625);

    // the ghoul lands 7500 and its own health does not move
    let mut ghoul = EnemyCharacter::new(EnemyType::Ghoul, Vec2i { x: 0, y: 0 }, 5);
    ghoul.basic_attack(&mut player);
    assert_eq!(player.get_health(), 100_000 - 5_625 - 7_500);
    assert_eq!(ghoul.get_health(), 100_000);

    // the drinker's self-heal is bounded by its maximum health
    let mut nearly_full = EnemyCharacter::new(EnemyType::Drinker, Vec2i { x: 0, y: 0 }, 6);
    nearly_full.increase_health(u64::MAX);
    assert_eq!(nearly_full.get_health(), 150_000);
    nearly_full.basic_attack(&mut player);
    assert_eq!(nearly_full.get_health(), 150_000);
}

#[test]
fn enemy_presets_match_their_balance() {
    let ghoul = EnemyCharacter::new(EnemyType::Ghoul, Vec2i { x: 1, y: 2 }, 11);
    assert_eq!((ghoul.speed, ghoul.current_health, ghoul.max_health, ghoul.power), (2_500, 100_000, 100_000, 10_000));
    let phantom = EnemyCharacter::new(EnemyType::Phantom, Vec2i { x: 0, y: 0 }, 12);
    assert_eq!((phantom.speed, phantom.current_health, phantom.power), (1_750, 200_000, 20_000));
    let crawler = EnemyCharacter::new(EnemyType::Crawler, Vec2i { x: 0, y: 0 }, 13);
    assert_eq!((crawler.speed, crawler.current_health, crawler.power), (8_000, 50_000, 33_500));
    assert_eq!(ghoul.get_entity_type(), EntityType::Ghoul);
    assert_eq!(phantom.get_entity_type(), EntityType::Phantom);
}

#[test]
fn enemy_chase_follows_the_normalized_vector_to_the_player() {
    let player = PlayerCharacter::new(b"prey".to_vec(), 21);
    // a 3-4-5 triangle: the unit vector towards the origin is (-600, -800)
    let mut e = EnemyCharacter::new(EnemyType::Ghoul, Vec2i { x: 3_000_000, y: 4_000_000 }, 22);
    e.move_towards_player(&player, TICK_PERIOD_US);
    // 2.5 units/s for one tick scales each component exactly, rounding down
    assert_eq!(e.get_position(), Vec2i { x: 3_000_000 - 23_437, y: 4_000_000 - 31_250 });
    // the chase strictly shrinks the distance to the player
    let p = e.get_position();
    let dist_sq = p.x as i128 * p.x as i128 + p.y as i128 * p.y as i128;
    assert!(dist_sq < 3_000_000i128 * 3_000_000 + 4_000_000i128 * 4_000_000);
    // an enemy standing exactly on the player stays put
    let mut sitting = EnemyCharacter::new(EnemyType::Ghoul, Vec2i { x: 0, y: 0 }, 23);
    sitting.move_towards_player(&player, TICK_PERIOD_US);
    assert_eq!(sitting.get_position(), Vec2i { x: 0, y: 0 });
}

#[test]
fn sprinting_doubles_the_current_speed_and_movement_is_exact() {
    let mut p = PlayerCharacter::new(b"runner".to_vec(), 31);
    assert_eq!(p.get_current_speed(), 2_680);
    p.begin_sprint();
    assert!(p.is_sprinting());
    assert_eq!(p.get_current_speed(), 5_360);
    p.end_sprint();
    assert_eq!(p.get_current_speed(), 2_680);
    // walking right for one tick moves exactly 2680 * 15625 / 1000000 = 41.875 milli-units
    p.translate(Vec2i { x: 1000, y: 0 }, TICK_PERIOD_US);
    assert_eq!(p.get_position(), Vec2i { x: 41_875, y: 0 });
    // buffered movement is consumed by the update and cleared
    p.set_movement(Some(Vec2i { x: -1000, y: 0 }));
    p.update(TICK_PERIOD_US);
    assert_eq!(p.get_position(), Vec2i { x: 0, y: 0 });
    assert_eq!(p.get_movement(), None);
}

#[test]
fn normalization_and_input_directions_are_unit_scale() {
    // a 3-4-5 triangle normalizes exactly
    let unit = normalize_direction(Vec2i { x: 3_000_000, y: -4_000_000 });
    assert_eq!(unit, Vec2i { x: 600, y: -800 });
    // held keys map to the fixed unit vectors
    assert_eq!(direction_from_input(false, false, false, true), Vec2i { x: 1000, y: 0 });
    assert_eq!(direction_from_input(true, false, true, false), Vec2i { x: -707, y: 707 });
    assert_eq!(direction_from_input(true, true, false, false), Vec2i { x: 0, y: 0 });
    assert_eq!(direction_from_input(false, false, false, false), Vec2i { x: 0, y: 0 });
}

#[test]
fn coordinates_saturate_at_the_world_edge() {
    assert_eq!(add_coord(COORD_MAX - 5, 10), COORD_MAX);
    assert_eq!(add_coord(-COORD_MAX, -10), -COORD_MAX);
    assert_eq!(add_coord(5, 7), 12);
}
