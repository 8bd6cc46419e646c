//! The client's side of the protocol: the interpolation store that buffers
//! the two most recent confirmed positions of every entity, the application
//! of inbound server datagrams to it, and the movement direction derived from
//! held keys. The socket and the rendering live with the caller.

use vstd::prelude::*;
use crate::codec;
use crate::entity_type::EntityType;
use crate::protocol::{Entity, PlayerData, ServerToClientMessage};
use crate::units::{clamp_coord, lerp, lerp_coord, Vec2i, MILLI};

verus! {

/// The milli-scale component of a diagonal unit vector: one over the square
/// root of two, rounded to the milli grid.
pub const DIAGONAL_COMPONENT: i64 = 707;

/// One drawable entity on the client: its kind and the two most recent
/// confirmed world positions, interpolated between for rendering.
#[derive(Clone, Copy, Debug, PartialEq, Eq, Structural)]
pub struct EntityGraphic {
    /// The confirmed position of this update, in micro-units.
    pub this_world_pos: Vec2i,
    /// The confirmed position of the next update, in micro-units.
    pub next_world_pos: Vec2i,
    /// What kind of entity this is; fixed at first sight.
    pub entity_type: EntityType,
}

impl EntityGraphic {
    /// Both buffered positions in world range.
    pub open spec fn wf(self) -> bool {
        self.this_world_pos.wf() && self.next_world_pos.wf()
    }

    /// A graphic buffering the two given confirmed positions.
    pub fn new(this_world_pos: Vec2i, next_world_pos: Vec2i, entity_type: EntityType) -> (r:
        EntityGraphic)
        ensures
            r == (EntityGraphic { this_world_pos, next_world_pos, entity_type }),
    {
        EntityGraphic { this_world_pos, next_world_pos, entity_type }
    }

    /// The buffered x coordinate of this update.
    pub fn get_this_x(&self) -> (r: i64)
        ensures
            r == self.this_world_pos.x,
    {
        self.this_world_pos.x
    }

    /// The buffered y coordinate of this update.
    pub fn get_this_y(&self) -> (r: i64)
        ensures
            r == self.this_world_pos.y,
    {
        self.this_world_pos.y
    }

    /// The buffered position of this update.
    pub fn get_this_position_vec2(&self) -> (r: Vec2i)
        ensures
            r == self.this_world_pos,
    {
        self.this_world_pos
    }

    /// The buffered x coordinate of the next update.
    pub fn get_next_x(&self) -> (r: i64)
        ensures
            r == self.next_world_pos.x,
    {
        self.next_world_pos.x
    }

    /// The buffered y coordinate of the next update.
    pub fn get_next_y(&self) -> (r: i64)
        ensures
            r == self.next_world_pos.y,
    {
        self.next_world_pos.y
    }

    /// The buffered position of the next update.
    pub fn get_next_position_vec2(&self) -> (r: Vec2i)
        ensures
            r == self.next_world_pos,
    {
        self.next_world_pos
    }

    /// The kind of entity this graphic stands for.
    pub fn get_entity_type(&self) -> (r: EntityType)
        ensures
            r == self.entity_type,
    {
        self.entity_type
    }

    /// Where to draw the entity at interpolation factor `num / den`: the
    /// exact linear interpolation between the two buffered positions. At
    /// factor zero this is the position of this update; at factor one it is
    /// the position of the next update; in between it moves monotonically
    /// along the segment.
    pub fn draw_position(&self, num: u64, den: u64) -> (r: Vec2i)
        requires
            self.wf(),
            den > 0,
            num <= den,
        ensures
            r.x as int == lerp(
                self.this_world_pos.x as int,
                self.next_world_pos.x as int,
                num as int,
                den as int,
            ),
            r.y as int == lerp(
                self.this_world_pos.y as int,
                self.next_world_pos.y as int,
                num as int,
                den as int,
            ),
            r.wf(),
    {
        Vec2i {
            x: lerp_coord(self.this_world_pos.x, self.next_world_pos.x, num, den),
            y: lerp_coord(self.this_world_pos.y, self.next_world_pos.y, num, den),
        }
    }
}

/// The client's store of drawable entities, keyed by entity identifier: no
/// identifier appears twice, and every buffered position is in world range.
pub struct GraphicsStore {
    pub entries: Vec<(u128, EntityGraphic)>,
}

/// What merging one snapshot record does to the store: a known entity shifts
/// its look-ahead position into the current one and buffers the new position
/// (keeping its first-seen kind); an unknown entity appears at rest at the
/// reported position. Coordinates are clamped into world range on ingest.
pub open spec fn spec_merge_entity(s: Seq<(u128, EntityGraphic)>, e: Entity) -> Seq<
    (u128, EntityGraphic),
> {
    let pos = Vec2i { x: clamp_coord(e.x as int) as i64, y: clamp_coord(e.y as int) as i64 };
    if exists|i: int| 0 <= i < s.len() && (#[trigger] s[i]).0 == e.id {
        let i = choose|i: int| 0 <= i < s.len() && (#[trigger] s[i]).0 == e.id;
        s.update(
            i,
            (
                e.id,
                EntityGraphic {
                    this_world_pos: s[i].1.next_world_pos,
                    next_world_pos: pos,
                    entity_type: s[i].1.entity_type,
                },
            ),
        )
    } else {
        s.push(
            (e.id, EntityGraphic { this_world_pos: pos, next_world_pos: pos, entity_type: e.entity_type }),
        )
    }
}

/// What merging a whole snapshot does: its records are merged one after
/// another, in snapshot order.
pub open spec fn spec_merge(s: Seq<(u128, EntityGraphic)>, data: Seq<Entity>) -> Seq<
    (u128, EntityGraphic),
>
    decreases data.len(),
{
    if data.len() == 0 {
        s
    } else {
        spec_merge_entity(spec_merge(s, data.drop_last()), data.last())
    }
}

/// Merging one more record merges it after the rest.
pub proof fn lemma_merge_push(s: Seq<(u128, EntityGraphic)>, data: Seq<Entity>, e: Entity)
    ensures
        spec_merge(s, data.push(e)) == spec_merge_entity(spec_merge(s, data), e),
{
    assert(data.push(e).drop_last() =~= data);
    assert(data.push(e).last() == e);
}

impl GraphicsStore {
    /// The store's invariant: no two entries share an identifier, and every
    /// graphic is well formed.
    pub open spec fn wf(self) -> bool {
        &&& (forall|i: int, j: int|
            0 <= i < j < self.entries@.len() ==> (#[trigger] self.entries@[i]).0 != (
            #[trigger] self.entries@[j]).0)
        &&& (forall|i: int| 0 <= i < self.entries@.len() ==> (#[trigger] self.entries@[i]).1.wf())
    }

    /// Whether the store knows the entity carrying `id`.
    pub open spec fn spec_contains(self, id: u128) -> bool {
        exists|i: int| 0 <= i < self.entries@.len() && (#[trigger] self.entries@[i]).0 == id
    }

    /// The graphic of the entity carrying `id`.
    pub open spec fn spec_graphic_of(self, id: u128) -> EntityGraphic {
        self.entries@[choose|i: int|
            0 <= i < self.entries@.len() && (#[trigger] self.entries@[i]).0 == id].1
    }

    /// In a well-formed store, every entry carrying `id` holds the graphic
    /// `spec_graphic_of(id)`.
    proof fn lemma_graphic_of(self, k: int)
        requires
            self.wf(),
            0 <= k < self.entries@.len(),
        ensures
            self.spec_contains(self.entries@[k].0),
            self.spec_graphic_of(self.entries@[k].0) == self.entries@[k].1,
    {
        let id = self.entries@[k].0;
        assert(self.spec_contains(id));
        let m = choose|i: int|
            0 <= i < self.entries@.len() && (#[trigger] self.entries@[i]).0 == id;
        if m < k {
            assert(self.entries@[m].0 != self.entries@[k].0);
        } else if k < m {
            assert(self.entries@[k].0 != self.entries@[m].0);
        }
    }

    /// An empty store.
    pub fn new() -> (r: GraphicsStore)
        ensures
            r.entries@.len() == 0,
            r.wf(),
    {
        GraphicsStore { entries: Vec::new() }
    }

    /// How many entities the store knows.
    pub fn len(&self) -> (r: usize)
        ensures
            r == self.entries@.len(),
    {
        self.entries.len()
    }

    /// The graphic of the entity carrying `id`, if the store knows it.
    #[verifier::loop_isolation(false)]
    pub fn lookup(&self, id: u128) -> (r: Option<EntityGraphic>)
        requires
            self.wf(),
        ensures
            r is Some <==> self.spec_contains(id),
            r matches Some(g) ==> g == self.spec_graphic_of(id),
    {
        let mut i: usize = 0;
        while i < self.entries.len()
            invariant
                i <= self.entries@.len(),
                forall|k: int| 0 <= k < i ==> (#[trigger] self.entries@[k]).0 != id,
            decreases self.entries@.len() - i,
        {
            if self.entries[i].0 == id {
                proof {
                    self.lemma_graphic_of(i as int);
                }
                return Some(self.entries[i].1);
            }
            i = i + 1;
        }
        None
    }

    /// Merges one snapshot record: exactly [`spec_merge_entity`].
    #[verifier::loop_isolation(false)]
    pub fn apply_entity_update(&mut self, e: &Entity)
        requires
            old(self).wf(),
        ensures
            final(self).wf(),
            final(self).entries@ == spec_merge_entity(old(self).entries@, *e),
    {
        let pos = Vec2i {
            x: crate::units::add_coord(0, e.x),
            y: crate::units::add_coord(0, e.y),
        };
        let mut i: usize = 0;
        let n = self.entries.len();
        while i < n
            invariant
                i <= n,
                n == self.entries@.len(),
                *self == *old(self),
                forall|k: int| 0 <= k < i ==> (#[trigger] self.entries@[k]).0 != e.id,
            decreases n - i,
        {
            if self.entries[i].0 == e.id {
                let shifted = EntityGraphic {
                    this_world_pos: self.entries[i].1.next_world_pos,
                    next_world_pos: pos,
                    entity_type: self.entries[i].1.entity_type,
                };
                self.entries[i] = (e.id, shifted);
                proof {
                    let m = choose|k: int|
                        0 <= k < old(self).entries@.len() && (#[trigger] old(
                            self,
                        ).entries@[k]).0 == e.id;
                    if m < i as int {
                        assert(old(self).entries@[m].0 != old(self).entries@[i as int].0);
                    } else if (i as int) < m {
                        assert(old(self).entries@[i as int].0 != old(self).entries@[m].0);
                    }
                    assert(m == i as int);
                    assert(self.entries@ =~= spec_merge_entity(old(self).entries@, *e));
                    assert forall|k1: int, k2: int|
                        0 <= k1 < k2 < self.entries@.len() implies (
                    #[trigger] self.entries@[k1]).0 != (#[trigger] self.entries@[k2]).0 by {
                        assert(old(self).entries@[k1].0 != old(self).entries@[k2].0);
                    }
                }
                return ;
            }
            i = i + 1;
        }
        let fresh = EntityGraphic {
            this_world_pos: pos,
            next_world_pos: pos,
            entity_type: e.entity_type,
        };
        self.entries.push((e.id, fresh));
        proof {
            assert(!old(self).spec_contains(e.id));
            assert(self.entries@ =~= spec_merge_entity(old(self).entries@, *e));
        }
    }
}

/// What applying one inbound server datagram to the client did.
#[derive(Clone, Debug)]
pub enum ClientApplyOutcome {
    /// The bytes are no encoding of any well-shaped server message; nothing
    /// changed.
    DecodeFailed,
    /// A snapshot: its records were merged into the interpolation store, in
    /// order.
    EntityDataApplied { data: Vec<Entity> },
    /// The local player's private stat block; the caller caches it. The
    /// store is untouched.
    PlayerDataReceived { data: PlayerData },
}

/// Applies one inbound server datagram to the interpolation store: snapshot
/// records are merged in order, player data is handed back for the caller's
/// cache, and malformed datagrams are dropped.
#[verifier::loop_isolation(false)]
pub fn proccess_server_message(ser_msg: &[u8], graphics: &mut GraphicsStore) -> (r:
    ClientApplyOutcome)
    requires
        old(graphics).wf(),
    ensures
        final(graphics).wf(),
        r is DecodeFailed ==> *final(graphics) == *old(graphics) && (forall|
            m: ServerToClientMessage,
        |
            codec::spec_wire_shaped(m) ==> ser_msg@ != codec::spec_enc_server_message(m)),
        r matches ClientApplyOutcome::EntityDataApplied { data } ==> ser_msg@
            == codec::spec_enc_server_message(ServerToClientMessage::EntityData { data })
            && final(graphics).entries@ == spec_merge(old(graphics).entries@, data@),
        r matches ClientApplyOutcome::PlayerDataReceived { data } ==> ser_msg@
            == codec::spec_enc_server_message(ServerToClientMessage::PlayerData { data })
            && *final(graphics) == *old(graphics),
{
    let decoded = codec::decode_server_message(ser_msg);
    match decoded {
        None => ClientApplyOutcome::DecodeFailed,
        Some(message) => match message {
            ServerToClientMessage::EntityData { data } => {
                let mut i: usize = 0;
                let n = data.len();
                proof {
                    assert(data@.subrange(0, 0) =~= Seq::<Entity>::empty());
                    assert(spec_merge(old(graphics).entries@, data@.subrange(0, 0)) == old(
                        graphics,
                    ).entries@);
                }
                while i < n
                    invariant
                        i <= n,
                        n == data@.len(),
                        graphics.wf(),
                        graphics.entries@ == spec_merge(
                            old(graphics).entries@,
                            data@.subrange(0, i as int),
                        ),
                    decreases n - i,
                {
                    apply_one(graphics, &data, i);
                    proof {
                        assert(data@.subrange(0, i + 1) =~= data@.subrange(0, i as int).push(
                            data@[i as int],
                        ));
                        lemma_merge_push(
                            old(graphics).entries@,
                            data@.subrange(0, i as int),
                            data@[i as int],
                        );
                    }
                    i = i + 1;
                }
                proof {
                    assert(data@.subrange(0, n as int) =~= data@);
                }
                ClientApplyOutcome::EntityDataApplied { data }
            },
            ServerToClientMessage::PlayerData { data } => ClientApplyOutcome::PlayerDataReceived {
                data,
            },
        },
    }
}

/// Merges the `i`-th record of a snapshot into the store.
fn apply_one(graphics: &mut GraphicsStore, data: &Vec<Entity>, i: usize)
    requires
        old(graphics).wf(),
        i < data@.len(),
    ensures
        final(graphics).wf(),
        final(graphics).entries@ == spec_merge_entity(old(graphics).entries@, data@[i as int]),
{
    let e = data[i];
    graphics.apply_entity_update(&e);
}

/// The movement direction the held keys ask for, as a unit vector in
/// milli-scale components: held opposite keys cancel, diagonals are scaled to
/// unit length, and no keys held means standing still.
pub fn direction_from_input(up: bool, down: bool, left: bool, right: bool) -> (r: Vec2i)
    ensures
        r.x as int == (if right == left {
            0int
        } else if up == down {
            if right {
                MILLI as int
            } else {
                -(MILLI as int)
            }
        } else {
            if right {
                DIAGONAL_COMPONENT as int
            } else {
                -(DIAGONAL_COMPONENT as int)
            }
        }),
        r.y as int == (if up == down {
            0int
        } else if right == left {
            if up {
                MILLI as int
            } else {
                -(MILLI as int)
            }
        } else {
            if up {
                DIAGONAL_COMPONENT as int
            } else {
                -(DIAGONAL_COMPONENT as int)
            }
        }),
        -MILLI <= r.x <= MILLI,
        -MILLI <= r.y <= MILLI,
{
    let horizontal: bool = right != left;
    let vertical: bool = up != down;
    if horizontal && vertical {
        Vec2i {
            x: if right {
                DIAGONAL_COMPONENT
            } else {
                -DIAGONAL_COMPONENT
            },
            y: if up {
                DIAGONAL_COMPONENT
            } else {
                -DIAGONAL_COMPONENT
            },
        }
    } else if horizontal {
        Vec2i {
            x: if right {
                MILLI
            } else {
                -MILLI
            },
            y: 0,
        }
    } else if vertical {
        Vec2i {
            x: 0,
            y: if up {
                MILLI
            } else {
                -MILLI
            },
        }
    } else {
        Vec2i { x: 0, y: 0 }
    }
}

} // verus!
