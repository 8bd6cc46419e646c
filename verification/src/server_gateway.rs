//! The server's side of the protocol: the connection table, the application
//! of inbound client datagrams to the world, and the assembly of the outbound
//! state broadcast. The socket itself lives with the caller; this module maps
//! bytes and sender addresses to state changes and back.

use vstd::prelude::*;
use crate::codec;
use crate::codec::spec_enc_client_message;
use crate::game_world::GameWorld;
use crate::player_character::{PlayerCharacter, PLAYER_JOG_SPEED};
use crate::protocol::{Action, ClientToServerMessage, Connection, Entity, ServerToClientMessage};
use crate::units::{valid_coord, Vec2i, MILLI};

verus! {

/// One connection: a client's network address, in string form, and the
/// identifier of the player character it controls.
pub struct ConnectionEntry {
    pub address: String,
    pub player_id: u128,
}

/// The mapping from client network address to player identifier: entries are
/// created on join, removed on drop, and no address appears twice.
pub struct ConnectionTable {
    pub entries: Vec<ConnectionEntry>,
}

impl ConnectionTable {
    /// The table's invariant: no two entries share an address.
    pub open spec fn wf(self) -> bool {
        forall|i: int, j: int|
            0 <= i < j < self.entries@.len() ==> (#[trigger] self.entries@[i]).address@ != (
            #[trigger] self.entries@[j]).address@
    }

    /// Whether some entry carries address `a`.
    pub open spec fn spec_contains(self, a: Seq<char>) -> bool {
        exists|i: int| 0 <= i < self.entries@.len() && (#[trigger] self.entries@[i]).address@ == a
    }

    /// The player identifier of the entry carrying address `a`.
    pub open spec fn spec_id_of(self, a: Seq<char>) -> u128 {
        self.entries@[choose|i: int|
            0 <= i < self.entries@.len() && (#[trigger] self.entries@[i]).address@
                == a].player_id
    }

    /// In a well-formed table, every entry that carries address `a` holds the
    /// identifier `spec_id_of(a)`.
    proof fn lemma_id_of(self, k: int)
        requires
            self.wf(),
            0 <= k < self.entries@.len(),
        ensures
            self.spec_contains(self.entries@[k].address@),
            self.spec_id_of(self.entries@[k].address@) == self.entries@[k].player_id,
    {
        let a = self.entries@[k].address@;
        assert(self.spec_contains(a));
        let m = choose|i: int|
            0 <= i < self.entries@.len() && (#[trigger] self.entries@[i]).address@ == a;
        if m < k {
            assert(self.entries@[m].address@ != self.entries@[k].address@);
        } else if k < m {
            assert(self.entries@[k].address@ != self.entries@[m].address@);
        }
    }

    /// An empty table.
    pub fn new() -> (r: ConnectionTable)
        ensures
            r.entries@.len() == 0,
            r.wf(),
    {
        ConnectionTable { entries: Vec::new() }
    }

    /// How many clients are connected.
    pub fn len(&self) -> (r: usize)
        ensures
            r == self.entries@.len(),
    {
        self.entries.len()
    }

    /// The player identifier bound to `address`, if the address is connected.
    #[verifier::loop_isolation(false)]
    pub fn lookup(&self, address: &String) -> (r: Option<u128>)
        requires
            self.wf(),
        ensures
            r is Some <==> self.spec_contains(address@),
            r matches Some(id) ==> id == self.spec_id_of(address@),
    {
        let mut i: usize = 0;
        while i < self.entries.len()
            invariant
                i <= self.entries@.len(),
                forall|k: int| 0 <= k < i ==> (#[trigger] self.entries@[k]).address@ != address@,
            decreases self.entries@.len() - i,
        {
            if self.entries[i].address == *address {
                proof {
                    self.lemma_id_of(i as int);
                }
                return Some(self.entries[i].player_id);
            }
            i = i + 1;
        }
        None
    }

    /// Unbinds `address`, if it is connected. Every other address keeps its
    /// binding.
    #[verifier::loop_isolation(false)]
    pub fn remove(&mut self, address: &String)
        requires
            old(self).wf(),
        ensures
            final(self).wf(),
            !final(self).spec_contains(address@),
            forall|a: Seq<char>|
                a != address@ ==> (#[trigger] final(self).spec_contains(a)) == old(self).spec_contains(a),
            forall|a: Seq<char>|
                a != address@ && old(self).spec_contains(a) ==> (#[trigger] final(self).spec_id_of(
                    a,
                )) == old(self).spec_id_of(a),
            final(self).entries@.len() <= old(self).entries@.len(),
    {
        let mut i: usize = 0;
        let n = self.entries.len();
        while i < n
            invariant
                i <= n,
                n == self.entries@.len(),
                self.entries@ == old(self).entries@,
                forall|k: int| 0 <= k < i ==> (#[trigger] self.entries@[k]).address@ != address@,
            decreases n - i,
        {
            if self.entries[i].address == *address {
                let ghost ov = self.entries@;
                self.entries.remove(i);
                proof {
                    assert(self.entries@ == ov.remove(i as int));
                    assert(self.entries@.len() == ov.len() - 1);
                    assert forall|k: int| 0 <= k < self.entries@.len() implies (
                    #[trigger] self.entries@[k]) == (if k < i as int {
                        ov[k]
                    } else {
                        ov[k + 1]
                    }) by {
                        if k < i as int {
                            assert(self.entries@[k] == ov.subrange(0, i as int)[k]);
                        } else {
                            assert(self.entries@[k] == ov.subrange(i + 1, ov.len() as int)[k
                                - i]);
                        }
                    }
                    assert(self.wf()) by {
                        assert forall|k1: int, k2: int|
                            0 <= k1 < k2 < self.entries@.len() implies (
                        #[trigger] self.entries@[k1]).address@ != (
                        #[trigger] self.entries@[k2]).address@ by {
                            let m1 = if k1 < i as int { k1 } else { k1 + 1 };
                            let m2 = if k2 < i as int { k2 } else { k2 + 1 };
                            assert(self.entries@[k1] == ov[m1]);
                            assert(self.entries@[k2] == ov[m2]);
                            assert(ov[m1].address@ != ov[m2].address@);
                        }
                    }
                    assert(!self.spec_contains(address@)) by {
                        if self.spec_contains(address@) {
                            let k = choose|k: int|
                                0 <= k < self.entries@.len() && (
                                #[trigger] self.entries@[k]).address@ == address@;
                            if k < i as int {
                                assert(ov[k].address@ == address@);
                            } else {
                                assert(ov[k + 1].address@ == address@);
                                assert(ov[i as int].address@ != ov[k + 1].address@);
                            }
                        }
                    }
                    assert forall|a: Seq<char>|
                        a != address@ implies (#[trigger] self.spec_contains(a)) == old(self).spec_contains(a) by {
                        if old(self).spec_contains(a) {
                            let k = choose|k: int|
                                0 <= k < ov.len() && (#[trigger] ov[k]).address@ == a;
                            if k < i as int {
                                assert(self.entries@[k].address@ == a);
                            } else {
                                assert(k != i);
                                assert(self.entries@[k - 1].address@ == a);
                            }
                        }
                        if self.spec_contains(a) {
                            let k = choose|k: int|
                                0 <= k < self.entries@.len() && (
                                #[trigger] self.entries@[k]).address@ == a;
                            if k < i as int {
                                assert(ov[k].address@ == a);
                            } else {
                                assert(ov[k + 1].address@ == a);
                            }
                        }
                    }
                    assert forall|a: Seq<char>|
                        a != address@ && old(self).spec_contains(a) implies (
                    #[trigger] self.spec_id_of(a)) == old(self).spec_id_of(a) by {
                        assert(self.spec_contains(a));
                        let k1 = choose|k: int|
                            0 <= k < self.entries@.len() && (#[trigger] self.entries@[k]).address@
                                == a;
                        self.lemma_id_of(k1);
                        if k1 < i as int {
                            assert(self.entries@[k1] == ov[k1]);
                            old(self).lemma_id_of(k1);
                        } else {
                            assert(self.entries@[k1] == ov[k1 + 1]);
                            old(self).lemma_id_of(k1 + 1);
                        }
                    }
                }
                return ;
            }
            i = i + 1;
        }
    }

    /// Binds `address` to `id`: a new entry when the address is unknown, and
    /// an overwrite of its player identifier when it is already connected.
    /// Every other address keeps its binding.
    pub fn insert(&mut self, address: String, id: u128)
        requires
            old(self).wf(),
        ensures
            final(self).wf(),
            final(self).spec_contains(address@),
            final(self).spec_id_of(address@) == id,
            forall|a: Seq<char>|
                a != address@ ==> (#[trigger] final(self).spec_contains(a)) == old(self).spec_contains(a),
            forall|a: Seq<char>|
                a != address@ && old(self).spec_contains(a) ==> (#[trigger] final(self).spec_id_of(
                    a,
                )) == old(self).spec_id_of(a),
    {
        self.remove(&address);
        let ghost mid = *self;
        self.entries.push(ConnectionEntry { address, player_id: id });
        proof {
            let ni = self.entries@.len() - 1;
            let av = self.entries@[ni].address@;
            assert forall|i: int|
                0 <= i < ni implies (#[trigger] self.entries@[i]).address@ != av by {
                if self.entries@[i].address@ == av {
                    assert(mid.entries@[i].address@ == av);
                    assert(mid.spec_contains(av));
                }
            }
            assert(self.wf()) by {
                assert forall|i: int, j: int|
                    0 <= i < j < self.entries@.len() implies (
                #[trigger] self.entries@[i]).address@ != (
                #[trigger] self.entries@[j]).address@ by {
                    if j < ni {
                        assert(mid.entries@[i].address@ != mid.entries@[j].address@);
                    }
                }
            }
            assert(self.spec_contains(av));
            self.lemma_id_of(ni);
            assert forall|a: Seq<char>|
                a != av implies (#[trigger] self.spec_contains(a)) == old(self).spec_contains(
                a,
            ) by {
                if mid.spec_contains(a) {
                    let k = choose|k: int|
                        0 <= k < mid.entries@.len() && (#[trigger] mid.entries@[k]).address@ == a;
                    assert(self.entries@[k].address@ == a);
                    assert(self.spec_contains(a));
                }
                if self.spec_contains(a) {
                    let k = choose|k: int|
                        0 <= k < self.entries@.len() && (#[trigger] self.entries@[k]).address@
                            == a;
                    assert(k != ni);
                    assert(mid.entries@[k].address@ == a);
                    assert(mid.spec_contains(a));
                }
            }
            assert forall|a: Seq<char>|
                a != av && old(self).spec_contains(a) implies (#[trigger] self.spec_id_of(a))
                    == old(self).spec_id_of(a) by {
                assert(mid.spec_contains(a));
                let k = choose|k: int|
                    0 <= k < mid.entries@.len() && (#[trigger] mid.entries@[k]).address@ == a;
                mid.lemma_id_of(k);
                assert(self.entries@[k].address@ == a);
                self.lemma_id_of(k);
            }
        }
    }
}

/// What applying one inbound datagram did: which message it carried and what
/// changed. A datagram that does not decode is dropped, never a crash.
#[derive(Clone, Copy, Debug, PartialEq, Eq, Structural)]
pub enum ApplyOutcome {
    /// The bytes are no encoding of any client message; nothing changed.
    DecodeFailed,
    /// A join: a fresh player with this identifier entered the world and the
    /// sender's address now maps to it.
    Joined { id: u128 },
    /// A join whose randomly drawn identifier was already in use; nothing
    /// changed. Another join attempt will draw a fresh one.
    JoinCollision,
    /// A keep-alive: a placeholder, nothing changed.
    KeptAlive,
    /// A drop: the sender's table entry and its player, if any, are gone.
    Dropped,
    /// A movement action, buffered on the sender's player.
    MoveBuffered { id: u128, x: i64, y: i64 },
    /// A cast action, buffered on the sender's player.
    ShootBuffered { id: u128, x: i64, y: i64 },
    /// An action from an address with no connected player; nothing changed.
    UnknownSender,
    /// An action whose coordinates lie outside the accepted range; nothing
    /// changed.
    InvalidAction,
}

/// Applies one inbound datagram to the world and the connection table: joins
/// create players, drops disconnect them, actions land in the addressed
/// player's pending-action buffers, and malformed datagrams are dropped.
#[verifier::loop_isolation(false)]
pub fn proccess_net_message(
    ser_msg: &[u8],
    sender: &String,
    connection_table: &mut ConnectionTable,
    game_world: &mut GameWorld,
    join_name: &[u8],
) -> (r: ApplyOutcome)
    requires
        old(connection_table).wf(),
        old(game_world).wf(),
        join_name@.len() <= 255,
    ensures
        final(connection_table).wf(),
        final(game_world).wf(),
        r == ApplyOutcome::DecodeFailed ==> *final(connection_table) == *old(connection_table)
            && *final(game_world) == *old(game_world) && (forall|m: ClientToServerMessage|
            ser_msg@ != spec_enc_client_message(m)),
        r matches ApplyOutcome::Joined { id } ==> {
            &&& ser_msg@ == spec_enc_client_message(
                ClientToServerMessage::ConnectionEvent { event: Connection::Join },
            )
            &&& !old(game_world).spec_has_id(id)
            &&& final(game_world).player_characters@.len() == old(game_world).player_characters@.len() + 1
            &&& final(game_world).player_characters@ == old(game_world).player_characters@.push(final(game_world).player_characters@.last())
            &&& final(game_world).player_characters@.last().id == id
            &&& final(game_world).player_characters@.last().name@ == join_name@
            &&& final(game_world).player_characters@.last().position == (Vec2i { x: 0, y: 0 })
            &&& final(game_world).player_characters@.last().current_speed == PLAYER_JOG_SPEED
            &&& !final(game_world).player_characters@.last().is_dead
            &&& final(game_world).player_characters@.last().movement is None
            &&& final(game_world).player_characters@.last().shootment is None
            &&& final(game_world).player_projectiles == old(game_world).player_projectiles
            &&& final(game_world).enemy_characters == old(game_world).enemy_characters
            &&& final(game_world).clock == old(game_world).clock
            &&& final(connection_table).spec_contains(sender@)
            &&& final(connection_table).spec_id_of(sender@) == id
            &&& (forall|a: Seq<char>|
                a != sender@ ==> (#[trigger] final(connection_table).spec_contains(a)) == old(connection_table).spec_contains(a))
            &&& (forall|a: Seq<char>|
                a != sender@ && old(connection_table).spec_contains(a) ==> (#[trigger] final(connection_table).spec_id_of(a)) == old(connection_table).spec_id_of(a))
        },
        r == ApplyOutcome::JoinCollision ==> ser_msg@ == spec_enc_client_message(
            ClientToServerMessage::ConnectionEvent { event: Connection::Join },
        ) && *final(connection_table) == *old(connection_table) && *final(game_world) == *old(game_world),
        r == ApplyOutcome::KeptAlive ==> ser_msg@ == spec_enc_client_message(
            ClientToServerMessage::ConnectionEvent { event: Connection::KeepAlive },
        ) && *final(connection_table) == *old(connection_table) && *final(game_world) == *old(game_world),
        r == ApplyOutcome::Dropped ==> {
            &&& ser_msg@ == spec_enc_client_message(
                ClientToServerMessage::ConnectionEvent { event: Connection::Drop },
            )
            &&& !final(connection_table).spec_contains(sender@)
            &&& (forall|a: Seq<char>|
                a != sender@ ==> (#[trigger] final(connection_table).spec_contains(a)) == old(connection_table).spec_contains(a))
            &&& (forall|a: Seq<char>|
                a != sender@ && old(connection_table).spec_contains(a) ==> (#[trigger] final(connection_table).spec_id_of(a)) == old(connection_table).spec_id_of(a))
            &&& (old(connection_table).spec_contains(sender@) ==> final(game_world).player_characters@ == old(game_world).player_characters@.filter(
                |q: PlayerCharacter| q.id != old(connection_table).spec_id_of(sender@),
            ))
            &&& (!old(connection_table).spec_contains(sender@) ==> *final(game_world) == *old(game_world))
            &&& final(game_world).player_projectiles == old(game_world).player_projectiles
            &&& final(game_world).enemy_characters == old(game_world).enemy_characters
            &&& final(game_world).clock == old(game_world).clock
        },
        r matches ApplyOutcome::MoveBuffered { id, x, y } ==> {
            &&& ser_msg@ == spec_enc_client_message(
                ClientToServerMessage::ActionEvent { event: Action::Move { x, y } },
            )
            &&& -MILLI <= x <= MILLI && -MILLI <= y <= MILLI
            &&& old(connection_table).spec_contains(sender@)
            &&& id == old(connection_table).spec_id_of(sender@)
            &&& *final(connection_table) == *old(connection_table)
            &&& final(game_world).player_characters@.len() == old(game_world).player_characters@.len()
            &&& (forall|k: int|
                0 <= k < old(game_world).player_characters@.len() ==> final(game_world).player_characters@[k] == (if (#[trigger] old(game_world).player_characters@[k]).id == id {
                    PlayerCharacter {
                        movement: Some(Vec2i { x, y }),
                        ..old(game_world).player_characters@[k]
                    }
                } else {
                    old(game_world).player_characters@[k]
                }))
            &&& final(game_world).player_projectiles == old(game_world).player_projectiles
            &&& final(game_world).enemy_characters == old(game_world).enemy_characters
            &&& final(game_world).clock == old(game_world).clock
        },
        r matches ApplyOutcome::ShootBuffered { id, x, y } ==> {
            &&& ser_msg@ == spec_enc_client_message(
                ClientToServerMessage::ActionEvent { event: Action::Shoot { x, y } },
            )
            &&& valid_coord(x as int) && valid_coord(y as int)
            &&& old(connection_table).spec_contains(sender@)
            &&& id == old(connection_table).spec_id_of(sender@)
            &&& *final(connection_table) == *old(connection_table)
            &&& final(game_world).player_characters@.len() == old(game_world).player_characters@.len()
            &&& (forall|k: int|
                0 <= k < old(game_world).player_characters@.len() ==> final(game_world).player_characters@[k] == (if (#[trigger] old(game_world).player_characters@[k]).id == id {
                    PlayerCharacter {
                        shootment: Some(Vec2i { x, y }),
                        ..old(game_world).player_characters@[k]
                    }
                } else {
                    old(game_world).player_characters@[k]
                }))
            &&& final(game_world).player_projectiles == old(game_world).player_projectiles
            &&& final(game_world).enemy_characters == old(game_world).enemy_characters
            &&& final(game_world).clock == old(game_world).clock
        },
        r == ApplyOutcome::UnknownSender ==> *final(connection_table) == *old(connection_table)
            && *final(game_world) == *old(game_world) && (exists|a: Action|
            ser_msg@ == #[trigger] spec_enc_client_message(
                ClientToServerMessage::ActionEvent { event: a },
            )) && (!old(connection_table).spec_contains(sender@) || !(exists|k: int|
            0 <= k < old(game_world).player_characters@.len() && (#[trigger] old(
                game_world,
            ).player_characters@[k]).id == old(connection_table).spec_id_of(sender@))),
        r == ApplyOutcome::InvalidAction ==> *final(connection_table) == *old(connection_table)
            && *final(game_world) == *old(game_world) && ((exists|x: i64, y: i64|
            ser_msg@ == #[trigger] spec_enc_client_message(
                ClientToServerMessage::ActionEvent { event: Action::Move { x, y } },
            ) && (x < -MILLI || x > MILLI || y < -MILLI || y > MILLI)) || (exists|x: i64, y: i64|
            ser_msg@ == #[trigger] spec_enc_client_message(
                ClientToServerMessage::ActionEvent { event: Action::Shoot { x, y } },
            ) && !(valid_coord(x as int) && valid_coord(y as int)))),
        forall|x: i64, y: i64|
            ser_msg@ == #[trigger] spec_enc_client_message(
                ClientToServerMessage::ActionEvent { event: Action::Move { x, y } },
            ) && -MILLI <= x <= MILLI && -MILLI <= y <= MILLI && old(
                connection_table,
            ).spec_contains(sender@) && (exists|k: int|
                0 <= k < old(game_world).player_characters@.len() && (#[trigger] old(
                    game_world,
                ).player_characters@[k]).id == old(connection_table).spec_id_of(sender@))
                ==> r == (ApplyOutcome::MoveBuffered {
                id: old(connection_table).spec_id_of(sender@),
                x,
                y,
            }),
        forall|x: i64, y: i64|
            ser_msg@ == #[trigger] spec_enc_client_message(
                ClientToServerMessage::ActionEvent { event: Action::Shoot { x, y } },
            ) && valid_coord(x as int) && valid_coord(y as int) && old(
                connection_table,
            ).spec_contains(sender@) && (exists|k: int|
                0 <= k < old(game_world).player_characters@.len() && (#[trigger] old(
                    game_world,
                ).player_characters@[k]).id == old(connection_table).spec_id_of(sender@))
                ==> r == (ApplyOutcome::ShootBuffered {
                id: old(connection_table).spec_id_of(sender@),
                x,
                y,
            }),
{
    let decoded = codec::decode_client_message(ser_msg);
    match decoded {
        None => ApplyOutcome::DecodeFailed,
        Some(message) => match message {
            ClientToServerMessage::ConnectionEvent { event } => match event {
                Connection::Join => {
                    let id = crate::ids::fresh_uuid();
                    let mut name: Vec<u8> = Vec::new();
                    let mut i: usize = 0;
                    while i < join_name.len()
                        invariant
                            i <= join_name@.len(),
                            name@ == join_name@.subrange(0, i as int),
                        decreases join_name@.len() - i,
                    {
                        name.push(join_name[i]);
                        proof {
                            assert(name@ =~= join_name@.subrange(0, i + 1));
                        }
                        i = i + 1;
                    }
                    proof {
                        assert(name@ =~= join_name@);
                    }
                    let player = PlayerCharacter::new(name, id);
                    if game_world.add_player_character(player) {
                        connection_table.insert(sender.clone(), id);
                        ApplyOutcome::Joined { id }
                    } else {
                        ApplyOutcome::JoinCollision
                    }
                },
                Connection::KeepAlive => ApplyOutcome::KeptAlive,
                Connection::Drop => {
                    match connection_table.lookup(sender) {
                        Some(id) => {
                            connection_table.remove(sender);
                            game_world.remove_player_character(id);
                        },
                        None => (),
                    }
                    ApplyOutcome::Dropped
                },
            },
            ClientToServerMessage::ActionEvent { event } => match event {
                Action::Move { x, y } => {
                    proof {
                        assert(ser_msg@ == spec_enc_client_message(
                            ClientToServerMessage::ActionEvent { event: Action::Move { x, y } },
                        ));
                    }
                    if x < -MILLI || x > MILLI || y < -MILLI || y > MILLI {
                        return ApplyOutcome::InvalidAction;
                    }
                    match connection_table.lookup(sender) {
                        None => ApplyOutcome::UnknownSender,
                        Some(id) => {
                            if game_world.set_player_movement(id, Some(Vec2i { x, y })) {
                                ApplyOutcome::MoveBuffered { id, x, y }
                            } else {
                                ApplyOutcome::UnknownSender
                            }
                        },
                    }
                },
                Action::Shoot { x, y } => {
                    proof {
                        assert(ser_msg@ == spec_enc_client_message(
                            ClientToServerMessage::ActionEvent { event: Action::Shoot { x, y } },
                        ));
                    }
                    if x < crate::units::COORD_MIN || x > crate::units::COORD_MAX
                        || y < crate::units::COORD_MIN || y > crate::units::COORD_MAX {
                        return ApplyOutcome::InvalidAction;
                    }
                    match connection_table.lookup(sender) {
                        None => ApplyOutcome::UnknownSender,
                        Some(id) => {
                            if game_world.set_player_shootment(id, Some(Vec2i { x, y })) {
                                ApplyOutcome::ShootBuffered { id, x, y }
                            } else {
                                ApplyOutcome::UnknownSender
                            }
                        },
                    }
                },
            },
        },
    }
}

/// The `i`-th chunk of a snapshot: up to [`codec::MAX_ENTITIES_PER_MESSAGE`]
/// consecutive entities.
pub open spec fn spec_chunk_of(s: Seq<Entity>, i: int) -> Seq<Entity> {
    s.subrange(
        44 * i,
        if 44 * (i + 1) <= s.len() {
            44 * (i + 1)
        } else {
            s.len() as int
        },
    )
}

/// How many datagrams a snapshot takes: one per started chunk, and one even
/// when the world is empty, so that clients always hear from the server.
pub open spec fn spec_chunk_count(s: Seq<Entity>) -> int {
    if s.len() == 0 {
        1
    } else {
        (s.len() as int + 43) / 44
    }
}

/// The bytes of one snapshot chunk on the wire.
pub open spec fn spec_enc_entity_chunk(s: Seq<Entity>) -> Seq<u8> {
    seq![0u8] + vstd::bytes::spec_u16_to_le_bytes(s.len() as u16) + codec::spec_enc_entities(s)
}

/// Splits the world's snapshot into datagrams: every live entity appears in
/// exactly one chunk, in snapshot order, and every datagram fits the wire
/// ceiling. An empty world still yields one (empty) snapshot datagram.
#[verifier::loop_isolation(false)]
pub fn snapshot_datagrams(game_world: &GameWorld) -> (r: Vec<Vec<u8>>)
    requires
        game_world.wf(),
    ensures
        r@.len() == spec_chunk_count(crate::game_world::spec_snapshot(*game_world)),
        forall|i: int|
            0 <= i < r@.len() ==> (#[trigger] r@[i])@ == spec_enc_entity_chunk(
                spec_chunk_of(crate::game_world::spec_snapshot(*game_world), i),
            ),
        forall|i: int| 0 <= i < r@.len() ==> (#[trigger] r@[i])@.len() <= codec::MAX_DATAGRAM,
{
    let snap: Vec<Entity> = game_world.snapshot();
    let ghost sv = crate::game_world::spec_snapshot(*game_world);
    let mut out: Vec<Vec<u8>> = Vec::new();
    if snap.len() == 0 {
        let empty: Vec<Entity> = Vec::new();
        let msg = ServerToClientMessage::package_entity_data(empty);
        let bytes = codec::encode_server_message(&msg);
        proof {
            assert(spec_chunk_of(sv, 0) =~= Seq::<Entity>::empty());
            assert(bytes@ =~= spec_enc_entity_chunk(spec_chunk_of(sv, 0)));
        }
        out.push(bytes);
        return out;
    }
    let n = snap.len();
    let mut pos: usize = 0;
    while pos < n
        invariant
            pos <= n,
            n == sv.len(),
            snap@ == sv,
            pos == 44 * out@.len() || (pos == n && out@.len() == spec_chunk_count(sv)),
            pos < n ==> pos == 44 * out@.len(),
            pos == n ==> out@.len() == spec_chunk_count(sv),
            forall|i: int|
                0 <= i < out@.len() ==> (#[trigger] out@[i])@ == spec_enc_entity_chunk(
                    spec_chunk_of(sv, i),
                ),
            forall|i: int|
                0 <= i < out@.len() ==> (#[trigger] out@[i])@.len() <= codec::MAX_DATAGRAM,
        decreases n - pos,
    {
        let end: usize = if n - pos > 44 {
            pos + 44
        } else {
            n
        };
        let mut chunk: Vec<Entity> = Vec::new();
        let mut j: usize = pos;
        while j < end
            invariant
                pos <= j <= end <= n,
                snap@ == sv,
                n == sv.len(),
                chunk@ == sv.subrange(pos as int, j as int),
            decreases end - j,
        {
            chunk.push(snap[j]);
            proof {
                assert(chunk@ =~= sv.subrange(pos as int, j + 1));
            }
            j = j + 1;
        }
        let ghost c = out@.len() as int;
        proof {
            assert(chunk@ == spec_chunk_of(sv, c));
        }
        let msg = ServerToClientMessage::package_entity_data(chunk);
        let bytes = codec::encode_server_message(&msg);
        proof {
            assert(bytes@ =~= spec_enc_entity_chunk(spec_chunk_of(sv, c)));
        }
        out.push(bytes);
        proof {
            if end < n {
                assert(end == 44 * out@.len());
            } else {
                assert(out@.len() == spec_chunk_count(sv)) by {
                    assert(44 * c == pos);
                    assert(pos < n <= pos + 44);
                    assert((n + 43) / 44 == c + 1) by (nonlinear_arith)
                        requires
                            44 * c == pos,
                            pos < n <= pos + 44,
                            0 <= c,
                    ;
                }
            }
        }
        pos = end;
    }
    out
}

/// The private stat-block datagram for the player carrying `id`, if it is in
/// the world: the encoded `PlayerData` message of exactly that player.
#[verifier::loop_isolation(false)]
pub fn player_data_message(game_world: &GameWorld, id: u128) -> (r: Option<Vec<u8>>)
    requires
        game_world.wf(),
    ensures
        r is Some <==> (exists|k: int|
            0 <= k < game_world.player_characters@.len() && (
            #[trigger] game_world.player_characters@[k]).id == id),
        r matches Some(bytes) ==> (exists|k: int|
            0 <= k < game_world.player_characters@.len() && (
            #[trigger] game_world.player_characters@[k]).id == id && bytes@
                == crate::codec::spec_enc_server_message(
                ServerToClientMessage::PlayerData {
                    data: crate::protocol::spec_player_data_of(
                        game_world.player_characters@[k],
                    ),
                },
            )),
        r matches Some(bytes) ==> bytes@.len() <= codec::MAX_DATAGRAM,
{
    let n = game_world.player_characters.len();
    let mut i: usize = 0;
    while i < n
        invariant
            i <= n,
            forall|k: int|
                0 <= k < i ==> (#[trigger] game_world.player_characters@[k]).id != id,
        decreases n - i,
    {
        if game_world.player_characters[i].id == id {
            let data = crate::protocol::player_data_of(&game_world.player_characters[i]);
            let msg = ServerToClientMessage::package_player_data(data);
            let bytes = codec::encode_server_message(&msg);
            proof {
                let p = game_world.player_characters@[i as int];
                let dref = crate::protocol::spec_player_data_of(p);
                assert(bytes@ =~= crate::codec::spec_enc_server_message(
                    ServerToClientMessage::PlayerData { data: dref },
                ));
            }
            return Some(bytes);
        }
        i = i + 1;
    }
    None
}

/// Copies one datagram byte for byte.
fn copy_bytes(v: &Vec<u8>) -> (r: Vec<u8>)
    ensures
        r@ == v@,
{
    let mut r: Vec<u8> = Vec::new();
    let mut i: usize = 0;
    while i < v.len()
        invariant
            i <= v@.len(),
            r@ == v@.subrange(0, i as int),
        decreases v@.len() - i,
    {
        r.push(v[i]);
        proof {
            assert(r@ =~= v@.subrange(0, i + 1));
        }
        i = i + 1;
    }
    proof {
        assert(r@ =~= v@);
    }
    r
}

/// Copies a list of datagrams byte for byte.
fn copy_datagrams(src: &Vec<Vec<u8>>) -> (r: Vec<Vec<u8>>)
    ensures
        r@.len() == src@.len(),
        forall|i: int| 0 <= i < src@.len() ==> (#[trigger] r@[i])@ == src@[i]@,
{
    let mut r: Vec<Vec<u8>> = Vec::new();
    let mut i: usize = 0;
    while i < src.len()
        invariant
            i <= src@.len(),
            r@.len() == i,
            forall|k: int| 0 <= k < i ==> (#[trigger] r@[k])@ == src@[k]@,
        decreases src@.len() - i,
    {
        r.push(copy_bytes(&src[i]));
        i = i + 1;
    }
    r
}

/// Builds the tick's outbound traffic: for every connection, the snapshot
/// chunks, followed by that connection's own player-data message when its
/// player is in the world. No connection is ever handed another player's
/// private stat block.
#[verifier::loop_isolation(false)]
pub fn game_state_messages(connection_table: &ConnectionTable, game_world: &GameWorld) -> (r: Vec<
    (String, Vec<Vec<u8>>),
>)
    requires
        connection_table.wf(),
        game_world.wf(),
    ensures
        r@.len() == connection_table.entries@.len(),
        forall|c: int|
            0 <= c < r@.len() ==> (#[trigger] r@[c]).0@ == connection_table.entries@[c].address@,
        forall|c: int, k: int|
            0 <= c < r@.len() && 0 <= k < spec_chunk_count(
                crate::game_world::spec_snapshot(*game_world),
            ) ==> (#[trigger] r@[c].1@[k])@ == spec_enc_entity_chunk(
                spec_chunk_of(crate::game_world::spec_snapshot(*game_world), k),
            ),
        forall|c: int|
            0 <= c < r@.len() ==> (#[trigger] r@[c]).1@.len() == spec_chunk_count(
                crate::game_world::spec_snapshot(*game_world),
            ) + (if exists|k: int|
                0 <= k < game_world.player_characters@.len() && (
                #[trigger] game_world.player_characters@[k]).id
                    == connection_table.entries@[c].player_id {
                1int
            } else {
                0int
            }),
        forall|c: int|
            0 <= c < r@.len() && (exists|k: int|
                0 <= k < game_world.player_characters@.len() && (
                #[trigger] game_world.player_characters@[k]).id
                    == connection_table.entries@[c].player_id) ==> (exists|k: int|
                0 <= k < game_world.player_characters@.len() && (
                #[trigger] game_world.player_characters@[k]).id
                    == connection_table.entries@[c].player_id && ((#[trigger] r@[c]).1@.last())@
                    == crate::codec::spec_enc_server_message(
                    ServerToClientMessage::PlayerData {
                        data: crate::protocol::spec_player_data_of(
                            game_world.player_characters@[k],
                        ),
                    },
                )),
{
    let chunks = snapshot_datagrams(game_world);
    let mut r: Vec<(String, Vec<Vec<u8>>)> = Vec::new();
    let n = connection_table.entries.len();
    let mut c: usize = 0;
    while c < n
        invariant
            c <= n,
            r@.len() == c,
            forall|m: int|
                0 <= m < c ==> (#[trigger] r@[m]).0@ == connection_table.entries@[m].address@,
            forall|m: int, k: int|
                0 <= m < c && 0 <= k < spec_chunk_count(
                    crate::game_world::spec_snapshot(*game_world),
                ) ==> (#[trigger] r@[m].1@[k])@ == spec_enc_entity_chunk(
                    spec_chunk_of(crate::game_world::spec_snapshot(*game_world), k),
                ),
            forall|m: int|
                0 <= m < c ==> (#[trigger] r@[m]).1@.len() == spec_chunk_count(
                    crate::game_world::spec_snapshot(*game_world),
                ) + (if exists|k: int|
                    0 <= k < game_world.player_characters@.len() && (
                    #[trigger] game_world.player_characters@[k]).id
                        == connection_table.entries@[m].player_id {
                    1int
                } else {
                    0int
                }),
            forall|m: int|
                0 <= m < c && (exists|k: int|
                    0 <= k < game_world.player_characters@.len() && (
                    #[trigger] game_world.player_characters@[k]).id
                        == connection_table.entries@[m].player_id) ==> (exists|k: int|
                    0 <= k < game_world.player_characters@.len() && (
                    #[trigger] game_world.player_characters@[k]).id
                        == connection_table.entries@[m].player_id && ((
                    #[trigger] r@[m]).1@.last())@ == crate::codec::spec_enc_server_message(
                        ServerToClientMessage::PlayerData {
                            data: crate::protocol::spec_player_data_of(
                                game_world.player_characters@[k],
                            ),
                        },
                    )),
        decreases n - c,
    {
        let mut bundle = copy_datagrams(&chunks);
        match player_data_message(game_world, connection_table.entries[c].player_id) {
            Some(pd) => {
                bundle.push(pd);
            },
            None => (),
        }
        let address = connection_table.entries[c].address.clone();
        r.push((address, bundle));
        c = c + 1;
    }
    r
}

} // verus!
