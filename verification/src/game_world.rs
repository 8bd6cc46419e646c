//! The authoritative game world: the server-side collections of players,
//! projectiles and enemies, the simulation clock, and the fixed-tick step.
//!
//! The world's invariant is that every entity is well formed and that no two
//! live entities share an identifier, so every snapshot reports each
//! identifier exactly once.

use vstd::prelude::*;
use crate::enemy_character::{spec_enemy_entity_type, EnemyCharacter};
use crate::entity_type::EntityType;
use crate::player_character::PlayerCharacter;
use crate::player_projectile::{PlayerProjectile, PROJECTILE_LIFETIME_US};
use crate::protocol::Entity;
use crate::spell::Spell;
use crate::units::{spec_normalize, Vec2i};

verus! {

/// The snapshot entry a player character appears as.
pub open spec fn spec_entity_of_player(p: PlayerCharacter) -> Entity {
    Entity {
        id: p.id,
        x: p.position.x,
        y: p.position.y,
        entity_type: EntityType::PlayerCharacter,
    }
}

/// The snapshot entry an enemy character appears as.
pub open spec fn spec_entity_of_enemy(e: EnemyCharacter) -> Entity {
    Entity {
        id: e.id,
        x: e.position.x,
        y: e.position.y,
        entity_type: spec_enemy_entity_type(e.enemy_type),
    }
}

/// The snapshot entry a projectile appears as.
pub open spec fn spec_entity_of_projectile(p: PlayerProjectile) -> Entity {
    Entity {
        id: p.id,
        x: p.position.x,
        y: p.position.y,
        entity_type: crate::spell::spec_projectile_entity_type(p.spell_type),
    }
}

/// The complete snapshot of a world as a sequence: every live entity's
/// identifier, position and kind; enemies first, then projectiles, then
/// players.
pub open spec fn spec_snapshot(w: GameWorld) -> Seq<Entity> {
    w.enemy_characters@.map_values(|e: EnemyCharacter| spec_entity_of_enemy(e))
        + w.player_projectiles@.map_values(|p: PlayerProjectile| spec_entity_of_projectile(p))
        + w.player_characters@.map_values(|q: PlayerCharacter| spec_entity_of_player(q))
}

/// The game world: for something to exist, it must be stored here. The server
/// owns one world and advances it one simulation step per tick.
pub struct GameWorld {
    /// The connected players' characters.
    pub player_characters: Vec<PlayerCharacter>,
    /// The live projectiles.
    pub player_projectiles: Vec<PlayerProjectile>,
    /// The live enemies.
    pub enemy_characters: Vec<EnemyCharacter>,
    /// Simulation time, in microseconds since the world was created.
    pub clock: u64,
}

impl GameWorld {
    /// The world's invariant: every entity is well formed, identifiers are
    /// unique within each collection, and no identifier appears in two
    /// collections.
    pub open spec fn wf(self) -> bool {
        &&& (forall|i: int|
            0 <= i < self.player_characters@.len() ==> (
            #[trigger] self.player_characters@[i]).wf())
        &&& (forall|i: int|
            0 <= i < self.player_projectiles@.len() ==> (
            #[trigger] self.player_projectiles@[i]).wf())
        &&& (forall|i: int|
            0 <= i < self.enemy_characters@.len() ==> (#[trigger] self.enemy_characters@[i]).wf())
        &&& (forall|i: int, j: int|
            0 <= i < j < self.player_characters@.len()
                ==> (#[trigger] self.player_characters@[i]).id
                != (#[trigger] self.player_characters@[j]).id)
        &&& (forall|i: int, j: int|
            0 <= i < j < self.player_projectiles@.len()
                ==> (#[trigger] self.player_projectiles@[i]).id
                != (#[trigger] self.player_projectiles@[j]).id)
        &&& (forall|i: int, j: int|
            0 <= i < j < self.enemy_characters@.len() ==> (#[trigger] self.enemy_characters@[i]).id
                != (#[trigger] self.enemy_characters@[j]).id)
        &&& (forall|i: int, j: int|
            0 <= i < self.player_characters@.len() && 0 <= j < self.player_projectiles@.len()
                ==> (#[trigger] self.player_characters@[i]).id
                != (#[trigger] self.player_projectiles@[j]).id)
        &&& (forall|i: int, j: int|
            0 <= i < self.player_characters@.len() && 0 <= j < self.enemy_characters@.len()
                ==> (#[trigger] self.player_characters@[i]).id
                != (#[trigger] self.enemy_characters@[j]).id)
        &&& (forall|i: int, j: int|
            0 <= i < self.player_projectiles@.len() && 0 <= j < self.enemy_characters@.len()
                ==> (#[trigger] self.player_projectiles@[i]).id
                != (#[trigger] self.enemy_characters@[j]).id)
    }

    /// Whether some live entity of the world carries `id`.
    pub open spec fn spec_has_id(self, id: u128) -> bool {
        ||| (exists|i: int|
            0 <= i < self.player_characters@.len() && (#[trigger] self.player_characters@[i]).id
                == id)
        ||| (exists|i: int|
            0 <= i < self.player_projectiles@.len() && (#[trigger] self.player_projectiles@[i]).id
                == id)
        ||| (exists|i: int|
            0 <= i < self.enemy_characters@.len() && (#[trigger] self.enemy_characters@[i]).id
                == id)
    }

    /// An empty world at simulation time zero.
    pub fn new() -> (r: GameWorld)
        ensures
            r.player_characters@.len() == 0,
            r.player_projectiles@.len() == 0,
            r.enemy_characters@.len() == 0,
            r.clock == 0,
            r.wf(),
    {
        GameWorld {
            player_characters: Vec::new(),
            player_projectiles: Vec::new(),
            enemy_characters: Vec::new(),
            clock: 0,
        }
    }

    /// Whether some live entity of the world carries `id`.
    pub fn has_entity(&self, id: u128) -> (r: bool)
        ensures
            r == self.spec_has_id(id),
    {
        let mut i: usize = 0;
        while i < self.player_characters.len()
            invariant
                i <= self.player_characters@.len(),
                forall|k: int| 0 <= k < i ==> (#[trigger] self.player_characters@[k]).id != id,
            decreases self.player_characters@.len() - i,
        {
            if self.player_characters[i].id == id {
                return true;
            }
            i = i + 1;
        }
        let mut j: usize = 0;
        while j < self.player_projectiles.len()
            invariant
                j <= self.player_projectiles@.len(),
                forall|k: int| 0 <= k < j ==> (#[trigger] self.player_projectiles@[k]).id != id,
            decreases self.player_projectiles@.len() - j,
        {
            if self.player_projectiles[j].id == id {
                return true;
            }
            j = j + 1;
        }
        let mut k: usize = 0;
        while k < self.enemy_characters.len()
            invariant
                k <= self.enemy_characters@.len(),
                forall|m: int| 0 <= m < k ==> (#[trigger] self.enemy_characters@[m]).id != id,
            decreases self.enemy_characters@.len() - k,
        {
            if self.enemy_characters[k].id == id {
                return true;
            }
            k = k + 1;
        }
        false
    }

    /// Adds a player character, provided its identifier is not in use:
    /// returns whether it was added, and changes nothing otherwise.
    pub fn add_player_character(&mut self, p: PlayerCharacter) -> (added: bool)
        requires
            old(self).wf(),
            p.wf(),
        ensures
            added == !old(self).spec_has_id(p.id),
            added ==> final(self).player_characters@ == old(self).player_characters@.push(p),
            added ==> final(self).player_projectiles == old(self).player_projectiles,
            added ==> final(self).enemy_characters == old(self).enemy_characters,
            added ==> final(self).clock == old(self).clock,
            !added ==> *final(self) == *old(self),
            final(self).wf(),
    {
        if self.has_entity(p.id) {
            false
        } else {
            self.player_characters.push(p);
            true
        }
    }

    /// Adds an enemy character, provided its identifier is not in use:
    /// returns whether it was added, and changes nothing otherwise.
    pub fn add_enemy_character(&mut self, e: EnemyCharacter) -> (added: bool)
        requires
            old(self).wf(),
            e.wf(),
        ensures
            added == !old(self).spec_has_id(e.id),
            added ==> final(self).enemy_characters@ == old(self).enemy_characters@.push(e),
            added ==> final(self).player_characters == old(self).player_characters,
            added ==> final(self).player_projectiles == old(self).player_projectiles,
            added ==> final(self).clock == old(self).clock,
            !added ==> *final(self) == *old(self),
            final(self).wf(),
    {
        if self.has_entity(e.id) {
            false
        } else {
            self.enemy_characters.push(e);
            true
        }
    }

    /// Adds a projectile, provided its identifier is not in use: returns
    /// whether it was added, and changes nothing otherwise.
    pub fn add_player_projectile(&mut self, p: PlayerProjectile) -> (added: bool)
        requires
            old(self).wf(),
            p.wf(),
        ensures
            added == !old(self).spec_has_id(p.id),
            added ==> final(self).player_projectiles@ == old(self).player_projectiles@.push(p),
            added ==> final(self).player_characters == old(self).player_characters,
            added ==> final(self).enemy_characters == old(self).enemy_characters,
            added ==> final(self).clock == old(self).clock,
            !added ==> *final(self) == *old(self),
            final(self).wf(),
    {
        if self.has_entity(p.id) {
            false
        } else {
            self.player_projectiles.push(p);
            true
        }
    }


    /// Buffers a movement direction for the player carrying `id`: that
    /// player's pending movement becomes `direction`, every other entity is
    /// untouched. Returns whether such a player exists.
    #[verifier::loop_isolation(false)]
    pub fn set_player_movement(&mut self, id: u128, direction: Option<Vec2i>) -> (found: bool)
        requires
            old(self).wf(),
            direction matches Some(d) ==> -crate::units::MILLI <= d.x <= crate::units::MILLI
                && -crate::units::MILLI <= d.y <= crate::units::MILLI,
        ensures
            final(self).wf(),
            found == exists|k: int|
                0 <= k < old(self).player_characters@.len() && (#[trigger] old(
                    self,
                ).player_characters@[k]).id == id,
            final(self).player_characters@.len() == old(self).player_characters@.len(),
            forall|k: int|
                0 <= k < old(self).player_characters@.len() ==> final(self).player_characters@[k]
                    == (if (#[trigger] old(self).player_characters@[k]).id == id {
                    PlayerCharacter { movement: direction, ..old(self).player_characters@[k] }
                } else {
                    old(self).player_characters@[k]
                }),
            final(self).player_projectiles == old(self).player_projectiles,
            final(self).enemy_characters == old(self).enemy_characters,
            final(self).clock == old(self).clock,
            !found ==> *final(self) == *old(self),
    {
        let n = self.player_characters.len();
        let mut i: usize = 0;
        while i < n
            invariant
                i <= n,
                *self == *old(self),
                forall|k: int| 0 <= k < i ==> (#[trigger] self.player_characters@[k]).id != id,
            decreases n - i,
        {
            if self.player_characters[i].id == id {
                self.player_characters[i].set_movement(direction);
                proof {
                    assert forall|k: int|
                        0 <= k < old(self).player_characters@.len() implies self
                        .player_characters@[k] == (if (#[trigger] old(
                        self,
                    ).player_characters@[k]).id == id {
                        PlayerCharacter {
                            movement: direction,
                            ..old(self).player_characters@[k]
                        }
                    } else {
                        old(self).player_characters@[k]
                    }) by {
                        if k != i as int && old(self).player_characters@[k].id == id {
                            if k < i as int {
                                assert(old(self).player_characters@[k].id != old(
                                    self,
                                ).player_characters@[i as int].id);
                            } else {
                                assert(old(self).player_characters@[i as int].id != old(
                                    self,
                                ).player_characters@[k].id);
                            }
                        }
                    }
                }
                return true;
            }
            i = i + 1;
        }
        false
    }

    /// Buffers a cast target for the player carrying `id`: that player's
    /// pending target becomes `target`, every other entity is untouched.
    /// Returns whether such a player exists.
    #[verifier::loop_isolation(false)]
    pub fn set_player_shootment(&mut self, id: u128, target: Option<Vec2i>) -> (found: bool)
        requires
            old(self).wf(),
            target matches Some(t) ==> t.wf(),
        ensures
            final(self).wf(),
            found == exists|k: int|
                0 <= k < old(self).player_characters@.len() && (#[trigger] old(
                    self,
                ).player_characters@[k]).id == id,
            final(self).player_characters@.len() == old(self).player_characters@.len(),
            forall|k: int|
                0 <= k < old(self).player_characters@.len() ==> final(self).player_characters@[k]
                    == (if (#[trigger] old(self).player_characters@[k]).id == id {
                    PlayerCharacter { shootment: target, ..old(self).player_characters@[k] }
                } else {
                    old(self).player_characters@[k]
                }),
            final(self).player_projectiles == old(self).player_projectiles,
            final(self).enemy_characters == old(self).enemy_characters,
            final(self).clock == old(self).clock,
            !found ==> *final(self) == *old(self),
    {
        let n = self.player_characters.len();
        let mut i: usize = 0;
        while i < n
            invariant
                i <= n,
                *self == *old(self),
                forall|k: int| 0 <= k < i ==> (#[trigger] self.player_characters@[k]).id != id,
            decreases n - i,
        {
            if self.player_characters[i].id == id {
                self.player_characters[i].set_shootment(target);
                proof {
                    assert forall|k: int|
                        0 <= k < old(self).player_characters@.len() implies self
                        .player_characters@[k] == (if (#[trigger] old(
                        self,
                    ).player_characters@[k]).id == id {
                        PlayerCharacter {
                            shootment: target,
                            ..old(self).player_characters@[k]
                        }
                    } else {
                        old(self).player_characters@[k]
                    }) by {
                        if k != i as int && old(self).player_characters@[k].id == id {
                            if k < i as int {
                                assert(old(self).player_characters@[k].id != old(
                                    self,
                                ).player_characters@[i as int].id);
                            } else {
                                assert(old(self).player_characters@[i as int].id != old(
                                    self,
                                ).player_characters@[k].id);
                            }
                        }
                    }
                }
                return true;
            }
            i = i + 1;
        }
        false
    }

    /// One simulation step: the clock advances by `delta_time`, every player
    /// consumes its pending movement, and every projectile flies or expires
    /// against the new clock. Pending cast targets are consumed by
    /// [`Self::consume_pending_casts`], run right after the step; enemies are
    /// driven by a separate system and are not touched here.
    #[verifier::loop_isolation(false)]
    pub fn fixed_update(&mut self, delta_time: u64)
        requires
            old(self).wf(),
            delta_time <= crate::units::DT_MAX,
            old(self).clock + delta_time <= u64::MAX,
        ensures
            final(self).wf(),
            final(self).clock == old(self).clock + delta_time,
            final(self).enemy_characters == old(self).enemy_characters,
            final(self).player_characters@.len() == old(self).player_characters@.len(),
            forall|k: int|
                0 <= k < old(self).player_characters@.len() ==> final(self).player_characters@[k]
                    == (#[trigger] old(self).player_characters@[k]).spec_update(delta_time),
            final(self).player_projectiles@.len() == old(self).player_projectiles@.len(),
            forall|k: int|
                0 <= k < old(self).player_projectiles@.len() ==> final(self).player_projectiles@[k]
                    == (#[trigger] old(self).player_projectiles@[k]).spec_update(
                    delta_time,
                    (old(self).clock + delta_time) as u64,
                ),
    {
        self.clock = self.clock + delta_time;
        let now: u64 = self.clock;
        let mut i: usize = 0;
        while i < self.player_characters.len()
            invariant
                i <= self.player_characters@.len(),
                self.player_characters@.len() == old(self).player_characters@.len(),
                forall|k: int|
                    0 <= k < i ==> self.player_characters@[k] == (
                    #[trigger] old(self).player_characters@[k]).spec_update(delta_time),
                forall|k: int|
                    i <= k < self.player_characters@.len() ==> self.player_characters@[k] == (
                    #[trigger] old(self).player_characters@[k]),
                forall|k: int|
                    0 <= k < self.player_characters@.len() ==> (
                    #[trigger] self.player_characters@[k]).wf(),
                self.player_projectiles == old(self).player_projectiles,
                self.enemy_characters == old(self).enemy_characters,
                self.clock == old(self).clock + delta_time,
                delta_time <= crate::units::DT_MAX,
            decreases self.player_characters@.len() - i,
        {
            self.player_characters[i].update(delta_time);
            i = i + 1;
        }
        let mut j: usize = 0;
        while j < self.player_projectiles.len()
            invariant
                j <= self.player_projectiles@.len(),
                self.player_projectiles@.len() == old(self).player_projectiles@.len(),
                forall|k: int|
                    0 <= k < j ==> self.player_projectiles@[k] == (
                    #[trigger] old(self).player_projectiles@[k]).spec_update(delta_time, now),
                forall|k: int|
                    j <= k < self.player_projectiles@.len() ==> self.player_projectiles@[k] == (
                    #[trigger] old(self).player_projectiles@[k]),
                forall|k: int|
                    0 <= k < self.player_projectiles@.len() ==> (
                    #[trigger] self.player_projectiles@[k]).wf(),
                self.player_characters@.len() == old(self).player_characters@.len(),
                forall|k: int|
                    0 <= k < self.player_characters@.len() ==> self.player_characters@[k] == (
                    #[trigger] old(self).player_characters@[k]).spec_update(delta_time),
                self.enemy_characters == old(self).enemy_characters,
                self.clock == old(self).clock + delta_time,
                now == self.clock,
                delta_time <= crate::units::DT_MAX,
            decreases self.player_projectiles@.len() - j,
        {
            self.player_projectiles[j].update(delta_time, now);
            j = j + 1;
        }
        proof {
            assert forall|k: int| 0 <= k < self.player_characters@.len() implies (
            #[trigger] self.player_characters@[k]).id == old(self).player_characters@[k].id by {
                assert(self.player_characters@[k] == old(
                    self,
                ).player_characters@[k].spec_update(delta_time));
            }
            assert forall|k: int| 0 <= k < self.player_projectiles@.len() implies (
            #[trigger] self.player_projectiles@[k]).id == old(self).player_projectiles@[k].id by {
                assert(self.player_projectiles@[k] == old(
                    self,
                ).player_projectiles@[k].spec_update(delta_time, now));
            }
        }
    }

    /// Removes every projectile whose expired flag is set: afterwards the
    /// projectile list holds exactly the unexpired projectiles, in their old
    /// order. Run this after the tick's broadcast, so that the final snapshot
    /// still reported the projectile.
    #[verifier::loop_isolation(false)]
    pub fn cull_expired_projectiles(&mut self)
        requires
            old(self).wf(),
        ensures
            final(self).player_projectiles@ == old(self).player_projectiles@.filter(
                |q: PlayerProjectile| !q.is_expired,
            ),
            final(self).player_characters == old(self).player_characters,
            final(self).enemy_characters == old(self).enemy_characters,
            final(self).clock == old(self).clock,
            final(self).wf(),
    {
        let ghost orig = old(self).player_projectiles@;
        let ghost pred = |q: PlayerProjectile| !q.is_expired;
        let ghost n = orig.len() as int;
        let mut rev: Vec<PlayerProjectile> = Vec::new();
        proof {
            assert(self.player_projectiles@ =~= orig.subrange(0, n - rev@.len()));
        }
        while self.player_projectiles.len() > 0
            invariant
                self.player_projectiles@ == orig.subrange(
                    0,
                    n - rev@.len(),
                ),
                rev@.len() <= n,
                forall|t: int| 0 <= t < rev@.len() ==> rev@[t] == orig[n - 1 - t],
                self.player_characters == old(self).player_characters,
                self.enemy_characters == old(self).enemy_characters,
                self.clock == old(self).clock,
            decreases self.player_projectiles@.len(),
        {
            let ghost d = self.player_projectiles@.len() as int;
            match self.player_projectiles.pop() {
                Some(p) => {
                    proof {
                        assert(d == n - rev@.len());
                        assert(p == orig.subrange(0, n - rev@.len())[d - 1]);
                        assert(p == orig[d - 1]);
                        assert(self.player_projectiles@ =~= orig.subrange(
                            0,
                            n - (rev@.len() + 1),
                        ));
                    }
                    rev.push(p);
                },
                None => {
                    proof {
                        assert(false);
                    }
                },
            }
        }
        let ghost kept0 = orig.subrange(0, 0);
        proof {
            assert(kept0.filter(pred) =~= Seq::<PlayerProjectile>::empty()) by {
                reveal_with_fuel(Seq::filter, 2);
            }
            assert(self.player_projectiles@ =~= kept0);
            assert(self.player_projectiles@ =~= kept0.filter(pred));
        }
        while rev.len() > 0
            invariant
                rev@.len() <= n,
                forall|t: int| 0 <= t < rev@.len() ==> rev@[t] == orig[n - 1 - t],
                self.player_projectiles@ == orig.subrange(0, n - rev@.len()).filter(pred),
                pred == (|q: PlayerProjectile| !q.is_expired),
                self.player_characters == old(self).player_characters,
                self.enemy_characters == old(self).enemy_characters,
                self.clock == old(self).clock,
            decreases rev@.len(),
        {
            let ghost k = n - rev@.len() as int;
            match rev.pop() {
                Some(p) => {
                    proof {
                        assert(p == orig[k]);
                        assert(orig.subrange(0, k + 1) =~= orig.subrange(0, k).push(orig[k]));
                        lemma_filter_push(orig.subrange(0, k), pred, orig[k]);
                    }
                    if !p.is_expired() {
                        self.player_projectiles.push(p);
                    }
                },
                None => {
                    proof {
                        assert(false);
                    }
                },
            }
        }
        proof {
            assert(orig.subrange(0, n) =~= orig);
            let key = |q: PlayerProjectile| q.id;
            lemma_filter_distinct_keys(orig, pred, key);
            assert forall|i: int, j: int|
                0 <= i < self.player_projectiles@.len() && 0 <= j
                    < self.enemy_characters@.len() implies (
            #[trigger] self.player_projectiles@[i]).id != (
            #[trigger] self.enemy_characters@[j]).id by {
                assert(orig.contains(self.player_projectiles@[i]));
                let m = choose|m: int| 0 <= m < orig.len() && orig[m] == self.player_projectiles@[i];
                assert(old(self).player_projectiles@[m].id != old(self).enemy_characters@[j].id);
            }
            assert forall|i: int, j: int|
                0 <= i < self.player_characters@.len() && 0 <= j
                    < self.player_projectiles@.len() implies (
            #[trigger] self.player_characters@[i]).id != (
            #[trigger] self.player_projectiles@[j]).id by {
                assert(orig.contains(self.player_projectiles@[j]));
                let m = choose|m: int| 0 <= m < orig.len() && orig[m] == self.player_projectiles@[j];
                assert(old(self).player_characters@[i].id != old(self).player_projectiles@[m].id);
            }
            assert forall|i: int|
                0 <= i < self.player_projectiles@.len() implies (
            #[trigger] self.player_projectiles@[i]).wf() by {
                assert(orig.contains(self.player_projectiles@[i]));
                let m = choose|m: int| 0 <= m < orig.len() && orig[m] == self.player_projectiles@[i];
                assert(old(self).player_projectiles@[m].wf());
            }
        }
    }

    /// Removes the player character carrying `id`, if any: afterwards the
    /// player list holds exactly the players whose identifier differs from
    /// `id`, in their old order.
    #[verifier::loop_isolation(false)]
    pub fn remove_player_character(&mut self, id: u128)
        requires
            old(self).wf(),
        ensures
            final(self).player_characters@ == old(self).player_characters@.filter(
                |q: PlayerCharacter| q.id != id,
            ),
            final(self).player_projectiles == old(self).player_projectiles,
            final(self).enemy_characters == old(self).enemy_characters,
            final(self).clock == old(self).clock,
            final(self).wf(),
    {
        let ghost orig = old(self).player_characters@;
        let ghost pred = |q: PlayerCharacter| q.id != id;
        let ghost n = orig.len() as int;
        let mut rev: Vec<PlayerCharacter> = Vec::new();
        proof {
            assert(self.player_characters@ =~= orig.subrange(0, n - rev@.len()));
        }
        while self.player_characters.len() > 0
            invariant
                self.player_characters@ == orig.subrange(
                    0,
                    n - rev@.len(),
                ),
                rev@.len() <= n,
                forall|t: int| 0 <= t < rev@.len() ==> rev@[t] == orig[n - 1 - t],
                self.player_projectiles == old(self).player_projectiles,
                self.enemy_characters == old(self).enemy_characters,
                self.clock == old(self).clock,
            decreases self.player_characters@.len(),
        {
            let ghost d = self.player_characters@.len() as int;
            match self.player_characters.pop() {
                Some(p) => {
                    proof {
                        assert(d == n - rev@.len());
                        assert(p == orig.subrange(0, n - rev@.len())[d - 1]);
                        assert(p == orig[d - 1]);
                        assert(self.player_characters@ =~= orig.subrange(
                            0,
                            n - (rev@.len() + 1),
                        ));
                    }
                    rev.push(p);
                },
                None => {
                    proof {
                        assert(false);
                    }
                },
            }
        }
        let ghost kept0 = orig.subrange(0, 0);
        proof {
            assert(kept0.filter(pred) =~= Seq::<PlayerCharacter>::empty()) by {
                reveal_with_fuel(Seq::filter, 2);
            }
            assert(self.player_characters@ =~= kept0);
            assert(self.player_characters@ =~= kept0.filter(pred));
        }
        while rev.len() > 0
            invariant
                rev@.len() <= n,
                forall|t: int| 0 <= t < rev@.len() ==> rev@[t] == orig[n - 1 - t],
                self.player_characters@ == orig.subrange(0, n - rev@.len()).filter(pred),
                pred == (|q: PlayerCharacter| q.id != id),
                self.player_projectiles == old(self).player_projectiles,
                self.enemy_characters == old(self).enemy_characters,
                self.clock == old(self).clock,
            decreases rev@.len(),
        {
            let ghost k = n - rev@.len() as int;
            match rev.pop() {
                Some(p) => {
                    proof {
                        assert(p == orig[k]);
                        assert(orig.subrange(0, k + 1) =~= orig.subrange(0, k).push(orig[k]));
                        lemma_filter_push(orig.subrange(0, k), pred, orig[k]);
                    }
                    if p.get_uuid() != id {
                        self.player_characters.push(p);
                    }
                },
                None => {
                    proof {
                        assert(false);
                    }
                },
            }
        }
        proof {
            assert(orig.subrange(0, n) =~= orig);
            let key = |q: PlayerCharacter| q.id;
            lemma_filter_distinct_keys(orig, pred, key);
            assert forall|i: int, j: int|
                0 <= i < self.player_characters@.len() && 0 <= j
                    < self.player_projectiles@.len() implies (
            #[trigger] self.player_characters@[i]).id != (
            #[trigger] self.player_projectiles@[j]).id by {
                assert(orig.contains(self.player_characters@[i]));
                let m = choose|m: int| 0 <= m < orig.len() && orig[m] == self.player_characters@[i];
                assert(old(self).player_characters@[m].id != old(self).player_projectiles@[j].id);
            }
            assert forall|i: int, j: int|
                0 <= i < self.player_characters@.len() && 0 <= j
                    < self.enemy_characters@.len() implies (
            #[trigger] self.player_characters@[i]).id != (
            #[trigger] self.enemy_characters@[j]).id by {
                assert(orig.contains(self.player_characters@[i]));
                let m = choose|m: int| 0 <= m < orig.len() && orig[m] == self.player_characters@[i];
                assert(old(self).player_characters@[m].id != old(self).enemy_characters@[j].id);
            }
            assert forall|i: int|
                0 <= i < self.player_characters@.len() implies (
            #[trigger] self.player_characters@[i]).wf() by {
                assert(orig.contains(self.player_characters@[i]));
                let m = choose|m: int| 0 <= m < orig.len() && orig[m] == self.player_characters@[i];
                assert(old(self).player_characters@[m].wf());
            }
        }
    }

    /// The complete snapshot of the world: one entry per live entity, enemies
    /// first, then projectiles, then players. No two entries share an
    /// identifier.
    #[verifier::loop_isolation(false)]
    pub fn snapshot(&self) -> (r: Vec<Entity>)
        requires
            self.wf(),
        ensures
            r@.len() == self.enemy_characters@.len() + self.player_projectiles@.len()
                + self.player_characters@.len(),
            forall|i: int|
                0 <= i < self.enemy_characters@.len() ==> r@[i] == spec_entity_of_enemy(
                    #[trigger] self.enemy_characters@[i],
                ),
            forall|i: int|
                0 <= i < self.player_projectiles@.len() ==> r@[self.enemy_characters@.len() + i]
                    == spec_entity_of_projectile(#[trigger] self.player_projectiles@[i]),
            forall|i: int|
                0 <= i < self.player_characters@.len() ==> r@[self.enemy_characters@.len()
                    + self.player_projectiles@.len() + i] == spec_entity_of_player(
                    #[trigger] self.player_characters@[i],
                ),
            forall|i: int, j: int| 0 <= i < j < r@.len() ==> r@[i].id != r@[j].id,
            r@ == spec_snapshot(*self),
    {
        let mut r: Vec<Entity> = Vec::new();
        let mut i: usize = 0;
        while i < self.enemy_characters.len()
            invariant
                i <= self.enemy_characters@.len(),
                r@.len() == i,
                forall|k: int|
                    0 <= k < i ==> r@[k] == spec_entity_of_enemy(
                        #[trigger] self.enemy_characters@[k],
                    ),
            decreases self.enemy_characters@.len() - i,
        {
            let e = &self.enemy_characters[i];
            r.push(
                Entity {
                    id: e.get_uuid(),
                    x: e.get_position().x,
                    y: e.get_position().y,
                    entity_type: e.get_entity_type(),
                },
            );
            i = i + 1;
        }
        let ghost en = self.enemy_characters@.len() as int;
        let mut j: usize = 0;
        while j < self.player_projectiles.len()
            invariant
                j <= self.player_projectiles@.len(),
                r@.len() == en + j,
                forall|k: int|
                    0 <= k < en ==> r@[k] == spec_entity_of_enemy(
                        #[trigger] self.enemy_characters@[k],
                    ),
                forall|k: int|
                    0 <= k < j ==> r@[en + k] == spec_entity_of_projectile(
                        #[trigger] self.player_projectiles@[k],
                    ),
            decreases self.player_projectiles@.len() - j,
        {
            let p = &self.player_projectiles[j];
            r.push(
                Entity {
                    id: p.get_uuid(),
                    x: p.get_position().x,
                    y: p.get_position().y,
                    entity_type: p.get_entity_type(),
                },
            );
            j = j + 1;
        }
        let ghost pr = self.player_projectiles@.len() as int;
        let mut k: usize = 0;
        while k < self.player_characters.len()
            invariant
                k <= self.player_characters@.len(),
                r@.len() == en + pr + k,
                forall|m: int|
                    0 <= m < en ==> r@[m] == spec_entity_of_enemy(
                        #[trigger] self.enemy_characters@[m],
                    ),
                forall|m: int|
                    0 <= m < pr ==> r@[en + m] == spec_entity_of_projectile(
                        #[trigger] self.player_projectiles@[m],
                    ),
                forall|m: int|
                    0 <= m < k ==> r@[en + pr + m] == spec_entity_of_player(
                        #[trigger] self.player_characters@[m],
                    ),
            decreases self.player_characters@.len() - k,
        {
            let p = &self.player_characters[k];
            r.push(
                Entity {
                    id: p.get_uuid(),
                    x: p.get_position().x,
                    y: p.get_position().y,
                    entity_type: p.get_entity_type(),
                },
            );
            k = k + 1;
        }
        proof {
            let en2 = self.enemy_characters@.len() as int;
            let pr2 = self.player_projectiles@.len() as int;
            assert forall|a: int, b: int| 0 <= a < b < r@.len() implies r@[a].id != r@[b].id by {
                if a < en2 {
                    assert(r@[a] == spec_entity_of_enemy(self.enemy_characters@[a]));
                } else if a < en2 + pr2 {
                    assert(r@[a] == spec_entity_of_projectile(self.player_projectiles@[a - en2]));
                } else {
                    assert(r@[a] == spec_entity_of_player(
                        self.player_characters@[a - en2 - pr2],
                    ));
                }
                if b < en2 {
                    assert(r@[b] == spec_entity_of_enemy(self.enemy_characters@[b]));
                } else if b < en2 + pr2 {
                    assert(r@[b] == spec_entity_of_projectile(self.player_projectiles@[b - en2]));
                } else {
                    assert(r@[b] == spec_entity_of_player(
                        self.player_characters@[b - en2 - pr2],
                    ));
                }
            }
            assert(r@ =~= spec_snapshot(*self));
        }
        r
    }
}


/// Whether consuming the pending cast target of `p` spawns a projectile: a
/// target is buffered, it differs from the player's own position, and the
/// player has the mana for the basic attack.
pub open spec fn spec_cast_spawns(p: PlayerCharacter) -> bool {
    match p.shootment {
        Some(t) => t != p.position && p.current_mana >= p.spec_mana_cost(Spell::Basic),
        None => false,
    }
}

/// What consuming the pending cast target does to the player: the buffer is
/// cleared, and when a projectile is spawned the basic attack's mana cost is
/// deducted exactly.
pub open spec fn spec_consume_cast(p: PlayerCharacter) -> PlayerCharacter {
    let cleared = PlayerCharacter { shootment: None, ..p };
    if spec_cast_spawns(p) {
        cleared.spec_decrease_mana(p.spec_mana_cost(Spell::Basic))
    } else {
        cleared
    }
}

/// The projectile a player's pending cast spawns: a basic attack from the
/// player's position, flying towards the target, owned by identifier `id`.
pub open spec fn spec_cast_projectile(p: PlayerCharacter, id: u128, now: u64) -> PlayerProjectile
{
    let t = p.shootment->Some_0;
    PlayerProjectile::spec_new_projectile(
        p.position,
        spec_normalize(Vec2i { x: (t.x - p.position.x) as i64, y: (t.y - p.position.y) as i64 }),
        Spell::Basic,
        id,
        now,
    )
}

/// The projectiles one round of cast consumption spawns, in player order.
pub open spec fn spec_spawned(
    players: Seq<PlayerCharacter>,
    ids: Seq<u128>,
    now: u64,
) -> Seq<PlayerProjectile>
    decreases players.len(),
{
    if players.len() == 0 {
        Seq::empty()
    } else {
        spec_spawned(players.drop_last(), ids.drop_last(), now) + (if spec_cast_spawns(
            players.last(),
        ) {
            seq![spec_cast_projectile(players.last(), ids[players.len() - 1], now)]
        } else {
            Seq::empty()
        })
    }
}

impl GameWorld {
    /// Consumes every player's pending cast target with the given fresh
    /// projectile identifiers, one per player: each player whose target is
    /// set, reachable and affordable pays the basic attack's mana cost and
    /// spawns exactly one projectile towards the target; every buffered
    /// target is cleared; nothing else changes.
    #[verifier::loop_isolation(false)]
    pub fn consume_pending_casts_with_ids(&mut self, ids: &Vec<u128>)
        requires
            old(self).wf(),
            ids@.len() == old(self).player_characters@.len(),
            forall|i: int, j: int| 0 <= i < j < ids@.len() ==> ids@[i] != ids@[j],
            forall|i: int| 0 <= i < ids@.len() ==> !old(self).spec_has_id(#[trigger] ids@[i]),
            old(self).clock <= u64::MAX - PROJECTILE_LIFETIME_US,
        ensures
            final(self).wf(),
            final(self).clock == old(self).clock,
            final(self).enemy_characters == old(self).enemy_characters,
            final(self).player_characters@.len() == old(self).player_characters@.len(),
            forall|k: int|
                0 <= k < old(self).player_characters@.len() ==> final(self).player_characters@[k]
                    == spec_consume_cast(#[trigger] old(self).player_characters@[k]),
            final(self).player_projectiles@ == old(self).player_projectiles@ + spec_spawned(
                old(self).player_characters@,
                ids@,
                old(self).clock,
            ),
    {
        let n = self.player_characters.len();
        let mut i: usize = 0;
        proof {
            assert(spec_spawned(
                old(self).player_characters@.subrange(0, 0),
                ids@.subrange(0, 0),
                old(self).clock,
            ) =~= Seq::empty());
            assert(self.player_projectiles@ =~= old(self).player_projectiles@ + spec_spawned(
                old(self).player_characters@.subrange(0, 0),
                ids@.subrange(0, 0),
                old(self).clock,
            ));
        }
        while i < n
            invariant
                i <= n,
                self.player_characters@.len() == n,
                self.clock == old(self).clock,
                self.enemy_characters == old(self).enemy_characters,
                forall|k: int|
                    0 <= k < i ==> self.player_characters@[k] == spec_consume_cast(
                        #[trigger] old(self).player_characters@[k],
                    ),
                forall|k: int|
                    i <= k < n ==> self.player_characters@[k] == (
                    #[trigger] old(self).player_characters@[k]),
                self.player_projectiles@ == old(self).player_projectiles@ + spec_spawned(
                    old(self).player_characters@.subrange(0, i as int),
                    ids@.subrange(0, i as int),
                    old(self).clock,
                ),
                forall|j: int|
                    old(self).player_projectiles@.len() <= j < self.player_projectiles@.len()
                        ==> exists|k: int|
                        0 <= k < i && (#[trigger] self.player_projectiles@[j]).id == ids@[k],
                forall|k: int|
                    0 <= k < self.player_characters@.len() ==> (
                    #[trigger] self.player_characters@[k]).id == old(
                    self,
                ).player_characters@[k].id,
                self.wf(),
            decreases n - i,
        {
            let ghost pre_players = self.player_characters@;
            let ghost pre_proj = self.player_projectiles@;
            let shoot = self.player_characters[i].get_shootment();
            let ghost old_p = old(self).player_characters@[i as int];
            match shoot {
                Some(target) => {
                    let pos = self.player_characters[i].get_position();
                    self.player_characters[i].set_shootment(None);
                    if !(target.x == pos.x && target.y == pos.y) {
                        let dir = crate::units::normalize_direction(
                            Vec2i { x: target.x - pos.x, y: target.y - pos.y },
                        );
                        match self.player_characters[i].cast_spell(
                            Spell::Basic,
                            dir,
                            ids[i],
                            self.clock,
                        ) {
                            Some(proj) => {
                                proof {
                                    assert(self.player_characters@[i as int] == spec_consume_cast(
                                        old_p,
                                    ));
                                    assert(proj == spec_cast_projectile(
                                        old_p,
                                        ids@[i as int],
                                        old(self).clock,
                                    ));
                                    assert(proj.wf());
                                    assert(proj.id == ids@[i as int]);
                                    assert forall|k: int|
                                        0 <= k < self.player_projectiles@.len() implies (
                                    #[trigger] self.player_projectiles@[k]).id != ids@[
                                        i as int
                                    ] by {
                                        if k < old(self).player_projectiles@.len() {
                                            assert(self.player_projectiles@[k] == old(
                                                self,
                                            ).player_projectiles@[k]);
                                            assert(!old(self).spec_has_id(ids@[i as int]));
                                        } else {
                                            let m = choose|m: int|
                                                0 <= m < i && self.player_projectiles@[k].id
                                                    == ids@[m];
                                            assert(ids@[m] != ids@[i as int]);
                                        }
                                    }
                                }
                                self.player_projectiles.push(proj);
                            },
                            None => {
                                proof {
                                    assert(self.player_characters@[i as int] == spec_consume_cast(
                                        old_p,
                                    ));
                                }
                            },
                        }
                    } else {
                        proof {
                            assert(self.player_characters@[i as int] == spec_consume_cast(old_p));
                        }
                    }
                },
                None => {
                    proof {
                        assert(old_p.shootment is None);
                        assert(self.player_characters@[i as int] == old_p);
                        assert(spec_consume_cast(old_p) == (PlayerCharacter {
                            shootment: None,
                            ..old_p
                        }));
                        assert(self.player_characters@[i as int] =~= spec_consume_cast(old_p));
                    }
                },
            }
            proof {
                assert(old(self).player_characters@.subrange(0, i + 1) =~= old(
                    self,
                ).player_characters@.subrange(0, i as int).push(old_p));
                assert(ids@.subrange(0, i + 1) =~= ids@.subrange(0, i as int).push(
                    ids@[i as int],
                ));
                lemma_spawned_push(
                    old(self).player_characters@.subrange(0, i as int),
                    ids@.subrange(0, i as int),
                    old_p,
                    ids@[i as int],
                    old(self).clock,
                );
                if spec_cast_spawns(old_p) {
                    assert(self.player_projectiles@ =~= old(self).player_projectiles@
                        + spec_spawned(
                        old(self).player_characters@.subrange(0, i + 1),
                        ids@.subrange(0, i + 1),
                        old(self).clock,
                    ));
                } else {
                    assert(self.player_projectiles@ =~= old(self).player_projectiles@
                        + spec_spawned(
                        old(self).player_characters@.subrange(0, i + 1),
                        ids@.subrange(0, i + 1),
                        old(self).clock,
                    ));
                }
            }
            i = i + 1;
        }
        proof {
            assert(old(self).player_characters@.subrange(0, n as int) =~= old(
                self,
            ).player_characters@);
            assert(ids@.subrange(0, n as int) =~= ids@);
            assert forall|k: int|
                0 <= k < self.player_characters@.len() implies (
            #[trigger] self.player_characters@[k]).id == old(self).player_characters@[k].id by {
                assert(self.player_characters@[k] == spec_consume_cast(
                    old(self).player_characters@[k],
                ));
            }
        }
    }

    /// Consumes every player's pending cast target, drawing a fresh random
    /// identifier for each projectile. Every buffered target is cleared; a
    /// player whose cast goes through pays the exact mana cost and one
    /// projectile joins the world; a cast whose random identifier collides
    /// with a live entity is refused and costs nothing.
    #[verifier::loop_isolation(false)]
    pub fn consume_pending_casts(&mut self)
        requires
            old(self).wf(),
            old(self).clock <= u64::MAX - PROJECTILE_LIFETIME_US,
        ensures
            final(self).wf(),
            final(self).clock == old(self).clock,
            final(self).enemy_characters == old(self).enemy_characters,
            final(self).player_characters@.len() == old(self).player_characters@.len(),
            forall|k: int|
                0 <= k < old(self).player_characters@.len() ==> final(self).player_characters@[k]
                    == spec_consume_cast(#[trigger] old(self).player_characters@[k])
                    || final(self).player_characters@[k] == (PlayerCharacter {
                    shootment: None,
                    ..old(self).player_characters@[k]
                }),
            forall|k: int|
                0 <= k < final(self).player_characters@.len()
                    ==> (#[trigger] final(self).player_characters@[k]).shootment is None,
            old(self).player_projectiles@.len() <= final(self).player_projectiles@.len(),
            forall|j: int|
                0 <= j < old(self).player_projectiles@.len()
                    ==> final(self).player_projectiles@[j] == (#[trigger] old(
                    self,
                ).player_projectiles@[j]),
    {
        let n = self.player_characters.len();
        let mut i: usize = 0;
        while i < n
            invariant
                i <= n,
                self.player_characters@.len() == n,
                self.clock == old(self).clock,
                self.enemy_characters == old(self).enemy_characters,
                forall|k: int|
                    0 <= k < i ==> self.player_characters@[k] == spec_consume_cast(
                        #[trigger] old(self).player_characters@[k],
                    ) || self.player_characters@[k] == (PlayerCharacter {
                        shootment: None,
                        ..old(self).player_characters@[k]
                    }),
                forall|k: int| 0 <= k < i ==> (#[trigger] self.player_characters@[k]).shootment is None,
                forall|k: int|
                    i <= k < n ==> self.player_characters@[k] == (
                    #[trigger] old(self).player_characters@[k]),
                old(self).player_projectiles@.len() <= self.player_projectiles@.len(),
                forall|j: int|
                    0 <= j < old(self).player_projectiles@.len() ==> self.player_projectiles@[j]
                        == (#[trigger] old(self).player_projectiles@[j]),
                self.wf(),
            decreases n - i,
        {
            let shoot = self.player_characters[i].get_shootment();
            let ghost old_p = old(self).player_characters@[i as int];
            match shoot {
                Some(target) => {
                    let pos = self.player_characters[i].get_position();
                    self.player_characters[i].set_shootment(None);
                    if !(target.x == pos.x && target.y == pos.y) {
                        let id = crate::ids::fresh_uuid();
                        if !self.has_entity(id) {
                            let dir = crate::units::normalize_direction(
                                Vec2i { x: target.x - pos.x, y: target.y - pos.y },
                            );
                            let now = self.clock;
                            match self.player_characters[i].cast_spell(
                                Spell::Basic,
                                dir,
                                id,
                                now,
                            ) {
                                Some(proj) => {
                                    self.player_projectiles.push(proj);
                                },
                                None => {},
                            }
                        }
                    }
                },
                None => {
                    proof {
                        assert(self.player_characters@[i as int] =~= (PlayerCharacter {
                            shootment: None,
                            ..old_p
                        }));
                    }
                },
            }
            i = i + 1;
        }
    }
}

/// Consuming one more player's cast appends its projectile, if any, to the
/// round's spawn list.
proof fn lemma_spawned_push(
    players: Seq<PlayerCharacter>,
    ids: Seq<u128>,
    p: PlayerCharacter,
    id: u128,
    now: u64,
)
    requires
        ids.len() == players.len(),
    ensures
        spec_spawned(players.push(p), ids.push(id), now) == spec_spawned(players, ids, now) + (
        if spec_cast_spawns(p) {
            seq![spec_cast_projectile(p, id, now)]
        } else {
            Seq::<PlayerProjectile>::empty()
        }),
{
    assert(players.push(p).drop_last() =~= players);
    assert(ids.push(id).drop_last() =~= ids);
    assert(players.push(p).last() == p);
    assert(ids.push(id)[players.push(p).len() - 1] == id);
}


/// Projectile lifecycle at the world level: once a projectile is expired, the
/// cull removes it, and the snapshot taken after the cull no longer reports
/// its identifier.
pub proof fn lemma_cull_excludes_expired(w: GameWorld, culled: GameWorld, j: int)
    requires
        w.wf(),
        culled.player_projectiles@ == w.player_projectiles@.filter(
            |q: PlayerProjectile| !q.is_expired,
        ),
        culled.player_characters@ == w.player_characters@,
        culled.enemy_characters@ == w.enemy_characters@,
        0 <= j < w.player_projectiles@.len(),
        w.player_projectiles@[j].is_expired,
    ensures
        forall|i: int|
            0 <= i < spec_snapshot(culled).len() ==> (#[trigger] spec_snapshot(culled)[i]).id
                != w.player_projectiles@[j].id,
{
    let id = w.player_projectiles@[j].id;
    let pred = |q: PlayerProjectile| !q.is_expired;
    let key = |q: PlayerProjectile| q.id;
    lemma_filter_distinct_keys(w.player_projectiles@, pred, key);
    let en = culled.enemy_characters@.len() as int;
    let pr = culled.player_projectiles@.len() as int;
    let pl = culled.player_characters@.len() as int;
    assert forall|i: int| 0 <= i < spec_snapshot(culled).len() implies (
    #[trigger] spec_snapshot(culled)[i]).id != id by {
        if i < en {
            assert(spec_snapshot(culled)[i] == spec_entity_of_enemy(culled.enemy_characters@[i]));
            assert(w.enemy_characters@[i].id != id);
        } else if i < en + pr {
            let p = culled.player_projectiles@[i - en];
            assert(spec_snapshot(culled)[i] == spec_entity_of_projectile(p));
            assert(w.player_projectiles@.contains(p));
            let m = choose|m: int|
                0 <= m < w.player_projectiles@.len() && w.player_projectiles@[m] == p;
            assert(!p.is_expired);
            assert(m != j);
            if m < j {
                assert(w.player_projectiles@[m].id != w.player_projectiles@[j].id);
            } else {
                assert(w.player_projectiles@[j].id != w.player_projectiles@[m].id);
            }
        } else {
            assert(spec_snapshot(culled)[i] == spec_entity_of_player(
                culled.player_characters@[i - en - pr],
            ));
            assert(w.player_characters@[i - en - pr].id != id);
        }
    }
}

/// Filtering one more element appends it to the filtered sequence exactly
/// when it satisfies the predicate.
pub proof fn lemma_filter_push<A>(s: Seq<A>, pred: spec_fn(A) -> bool, x: A)
    ensures
        s.push(x).filter(pred) == (if pred(x) {
            s.filter(pred).push(x)
        } else {
            s.filter(pred)
        }),
{
    reveal(Seq::filter);
    assert(s.push(x).drop_last() =~= s);
    assert(s.push(x).last() == x);
}

/// Filtering a sequence whose keys are pairwise distinct yields a sequence
/// whose keys are pairwise distinct, each of whose members the original
/// sequence contains.
pub proof fn lemma_filter_distinct_keys<A>(
    s: Seq<A>,
    pred: spec_fn(A) -> bool,
    key: spec_fn(A) -> u128,
)
    requires
        forall|i: int, j: int| 0 <= i < j < s.len() ==> key(s[i]) != key(s[j]),
    ensures
        forall|i: int, j: int|
            0 <= i < j < s.filter(pred).len() ==> key(#[trigger] s.filter(pred)[i]) != key(
                #[trigger] s.filter(pred)[j],
            ),
        forall|k: int| 0 <= k < s.filter(pred).len() ==> s.contains(#[trigger] s.filter(pred)[k]),
    decreases s.len(),
{
    reveal(Seq::filter);
    if s.len() == 0 {
    } else {
        let dl = s.drop_last();
        let last = s.last();
        lemma_filter_distinct_keys(dl, pred, key);
        assert forall|k: int| 0 <= k < dl.filter(pred).len() implies s.contains(
            #[trigger] dl.filter(pred)[k],
        ) by {
            assert(dl.contains(dl.filter(pred)[k]));
            let j = choose|j: int| 0 <= j < dl.len() && dl[j] == dl.filter(pred)[k];
            assert(s[j] == dl.filter(pred)[k]);
        }
        if pred(last) {
            assert(s.filter(pred) == dl.filter(pred).push(last));
            assert(s[s.len() - 1] == last);
            assert(s.contains(last));
            assert forall|i: int| 0 <= i < dl.filter(pred).len() implies key(
                #[trigger] dl.filter(pred)[i],
            ) != key(last) by {
                assert(dl.contains(dl.filter(pred)[i]));
                let j = choose|j: int| 0 <= j < dl.len() && dl[j] == dl.filter(pred)[i];
                assert(key(s[j]) != key(s[s.len() - 1]));
            }
        } else {
            assert(s.filter(pred) == dl.filter(pred));
        }
    }
}

} // verus!
