//! The binary encoding of the wire protocol.
//!
//! Every message encodes into one datagram of at most [`MAX_DATAGRAM`] bytes:
//! a tag byte, then fixed-width little-endian fields; lists and names carry a
//! length prefix. Decoding is exact: it returns the one message a buffer is
//! the encoding of, and fails on every buffer that is not an encoding.

use vstd::prelude::*;
use vstd::bytes::{
    lemma_auto_spec_u16_to_from_le_bytes, lemma_auto_spec_u64_to_from_le_bytes,
    lemma_auto_spec_u128_to_from_le_bytes, spec_u16_from_le_bytes, spec_u16_to_le_bytes,
    spec_u64_from_le_bytes, spec_u64_to_le_bytes, spec_u128_from_le_bytes, spec_u128_to_le_bytes,
    u16_from_le_bytes, u16_to_le_bytes, u64_from_le_bytes, u64_to_le_bytes, u128_from_le_bytes,
    u128_to_le_bytes,
};
use vstd::slice::slice_subrange;
use crate::entity_type::{spec_entity_type_tag, EntityType};
use crate::protocol::{Action, ClientToServerMessage, Connection, Entity, PlayerData,
    ServerToClientMessage};

verus! {

/// The practical ceiling of one datagram's payload, in bytes: every encoded
/// message fits in it.
pub const MAX_DATAGRAM: usize = 1476;

/// A signed coordinate on the wire: its two's-complement 64-bit value,
/// little endian.
pub open spec fn spec_enc_i64(x: i64) -> Seq<u8> {
    spec_u64_to_le_bytes(x as u64)
}

/// The encoding of a client-to-server message: an envelope tag (0 action,
/// 1 connection), an event tag, then the action's two coordinates if any.
pub open spec fn spec_enc_client_message(m: ClientToServerMessage) -> Seq<u8> {
    match m {
        ClientToServerMessage::ActionEvent { event: Action::Move { x, y } } => seq![0u8, 0u8]
            + spec_enc_i64(x) + spec_enc_i64(y),
        ClientToServerMessage::ActionEvent { event: Action::Shoot { x, y } } => seq![0u8, 1u8]
            + spec_enc_i64(x) + spec_enc_i64(y),
        ClientToServerMessage::ConnectionEvent { event: Connection::Join } => seq![1u8, 0u8],
        ClientToServerMessage::ConnectionEvent { event: Connection::KeepAlive } => seq![1u8, 1u8],
        ClientToServerMessage::ConnectionEvent { event: Connection::Drop } => seq![1u8, 2u8],
    }
}

/// Casting a signed 64-bit value to unsigned and back returns the value.
proof fn lemma_i64_cast_roundtrip(x: i64)
    ensures
        ((x as u64) as i64) == x,
{
    assert(((x as u64) as i64) == x) by (bit_vector);
}

/// Casting an unsigned 64-bit value to signed and back returns the value.
proof fn lemma_u64_cast_roundtrip(x: u64)
    ensures
        ((x as i64) as u64) == x,
{
    assert(((x as i64) as u64) == x) by (bit_vector);
}

/// The length, tag bytes and field positions of every client-to-server
/// encoding.
proof fn lemma_enc_client_message_parts(m: ClientToServerMessage)
    ensures
        match m {
            ClientToServerMessage::ActionEvent { event: Action::Move { x, y } } => {
                &&& spec_enc_client_message(m).len() == 18
                &&& spec_enc_client_message(m)[0] == 0u8
                &&& spec_enc_client_message(m)[1] == 0u8
                &&& spec_enc_client_message(m).subrange(2, 10) == spec_enc_i64(x)
                &&& spec_enc_client_message(m).subrange(10, 18) == spec_enc_i64(y)
            },
            ClientToServerMessage::ActionEvent { event: Action::Shoot { x, y } } => {
                &&& spec_enc_client_message(m).len() == 18
                &&& spec_enc_client_message(m)[0] == 0u8
                &&& spec_enc_client_message(m)[1] == 1u8
                &&& spec_enc_client_message(m).subrange(2, 10) == spec_enc_i64(x)
                &&& spec_enc_client_message(m).subrange(10, 18) == spec_enc_i64(y)
            },
            ClientToServerMessage::ConnectionEvent { event: Connection::Join } => {
                &&& spec_enc_client_message(m).len() == 2
                &&& spec_enc_client_message(m)[0] == 1u8
                &&& spec_enc_client_message(m)[1] == 0u8
            },
            ClientToServerMessage::ConnectionEvent { event: Connection::KeepAlive } => {
                &&& spec_enc_client_message(m).len() == 2
                &&& spec_enc_client_message(m)[0] == 1u8
                &&& spec_enc_client_message(m)[1] == 1u8
            },
            ClientToServerMessage::ConnectionEvent { event: Connection::Drop } => {
                &&& spec_enc_client_message(m).len() == 2
                &&& spec_enc_client_message(m)[0] == 1u8
                &&& spec_enc_client_message(m)[1] == 2u8
            },
        },
{
    lemma_auto_spec_u64_to_from_le_bytes();
    match m {
        ClientToServerMessage::ActionEvent { event: Action::Move { x, y } } => {
            assert(spec_enc_client_message(m).subrange(2, 10) =~= spec_enc_i64(x));
            assert(spec_enc_client_message(m).subrange(10, 18) =~= spec_enc_i64(y));
        },
        ClientToServerMessage::ActionEvent { event: Action::Shoot { x, y } } => {
            assert(spec_enc_client_message(m).subrange(2, 10) =~= spec_enc_i64(x));
            assert(spec_enc_client_message(m).subrange(10, 18) =~= spec_enc_i64(y));
        },
        _ => {},
    }
}

/// Appends the two's-complement little-endian bytes of `x`.
fn push_i64(out: &mut Vec<u8>, x: i64)
    ensures
        final(out)@ == old(out)@ + spec_enc_i64(x),
{
    let mut b = u64_to_le_bytes(x as u64);
    out.append(&mut b);
}

/// Appends the little-endian bytes of `x`.
fn push_u64(out: &mut Vec<u8>, x: u64)
    ensures
        final(out)@ == old(out)@ + spec_u64_to_le_bytes(x),
{
    let mut b = u64_to_le_bytes(x);
    out.append(&mut b);
}

/// Appends the little-endian bytes of `x`.
fn push_u16(out: &mut Vec<u8>, x: u16)
    ensures
        final(out)@ == old(out)@ + spec_u16_to_le_bytes(x),
{
    let mut b = u16_to_le_bytes(x);
    out.append(&mut b);
}

/// Appends the little-endian bytes of `x`.
fn push_u128(out: &mut Vec<u8>, x: u128)
    ensures
        final(out)@ == old(out)@ + spec_u128_to_le_bytes(x),
{
    let mut b = u128_to_le_bytes(x);
    out.append(&mut b);
}

/// Reads the signed 64-bit value at `pos`.
fn read_i64(b: &[u8], pos: usize) -> (x: i64)
    requires
        pos + 8 <= b@.len(),
        b@.len() <= usize::MAX,
    ensures
        spec_enc_i64(x) == b@.subrange(pos as int, pos + 8),
{
    let x = u64_from_le_bytes(slice_subrange(b, pos, pos + 8));
    proof {
        lemma_auto_spec_u64_to_from_le_bytes();
        lemma_u64_cast_roundtrip(x);
    }
    x as i64
}

/// Reads the unsigned 64-bit value at `pos`.
fn read_u64(b: &[u8], pos: usize) -> (x: u64)
    requires
        pos + 8 <= b@.len(),
        b@.len() <= usize::MAX,
    ensures
        spec_u64_to_le_bytes(x) == b@.subrange(pos as int, pos + 8),
{
    let x = u64_from_le_bytes(slice_subrange(b, pos, pos + 8));
    proof {
        lemma_auto_spec_u64_to_from_le_bytes();
    }
    x
}

/// Reads the unsigned 16-bit value at `pos`.
fn read_u16(b: &[u8], pos: usize) -> (x: u16)
    requires
        pos + 2 <= b@.len(),
        b@.len() <= usize::MAX,
    ensures
        spec_u16_to_le_bytes(x) == b@.subrange(pos as int, pos + 2),
{
    let x = u16_from_le_bytes(slice_subrange(b, pos, pos + 2));
    proof {
        lemma_auto_spec_u16_to_from_le_bytes();
    }
    x
}

/// Reads the unsigned 128-bit value at `pos`.
fn read_u128(b: &[u8], pos: usize) -> (x: u128)
    requires
        pos + 16 <= b@.len(),
        b@.len() <= usize::MAX,
    ensures
        spec_u128_to_le_bytes(x) == b@.subrange(pos as int, pos + 16),
{
    let x = u128_from_le_bytes(slice_subrange(b, pos, pos + 16));
    proof {
        lemma_auto_spec_u128_to_from_le_bytes();
    }
    x
}

/// Encodes a client-to-server message; the result always fits in one
/// datagram.
pub fn encode_client_message(m: &ClientToServerMessage) -> (r: Vec<u8>)
    ensures
        r@ == spec_enc_client_message(*m),
        r@.len() <= MAX_DATAGRAM,
{
    let mut out: Vec<u8> = Vec::new();
    match m {
        ClientToServerMessage::ActionEvent { event } => {
            out.push(0u8);
            match event {
                Action::Move { x, y } => {
                    out.push(0u8);
                    push_i64(&mut out, *x);
                    push_i64(&mut out, *y);
                },
                Action::Shoot { x, y } => {
                    out.push(1u8);
                    push_i64(&mut out, *x);
                    push_i64(&mut out, *y);
                },
            }
        },
        ClientToServerMessage::ConnectionEvent { event } => {
            out.push(1u8);
            match event {
                Connection::Join => out.push(0u8),
                Connection::KeepAlive => out.push(1u8),
                Connection::Drop => out.push(2u8),
            }
        },
    }
    proof {
        lemma_enc_client_message_parts(*m);
        assert(out@ =~= spec_enc_client_message(*m));
    }
    out
}

/// Decodes a client-to-server message exactly: returns the one message the
/// buffer is the encoding of, and nothing on every other buffer.
pub fn decode_client_message(b: &[u8]) -> (r: Option<ClientToServerMessage>)
    ensures
        r matches Some(m) ==> b@ == spec_enc_client_message(m),
        forall|m: ClientToServerMessage| b@ == spec_enc_client_message(m) ==> r == Some(m),
{
    if b.len() < 2 {
        proof {
            assert forall|m: ClientToServerMessage| b@ != spec_enc_client_message(m) by {
                lemma_enc_client_message_parts(m);
            }
        }
        return None;
    }
    let t0 = b[0];
    let t1 = b[1];
    if t0 == 0 {
        if b.len() != 18 {
            proof {
                assert forall|m: ClientToServerMessage| b@ != spec_enc_client_message(m) by {
                    lemma_enc_client_message_parts(m);
                }
            }
            return None;
        }
        if t1 == 0 {
            let x = read_i64(b, 2);
            let y = read_i64(b, 10);
            let m0 = ClientToServerMessage::ActionEvent { event: Action::Move { x, y } };
            proof {
                lemma_enc_client_message_parts(m0);
                assert(b@ =~= spec_enc_client_message(m0));
                assert forall|m: ClientToServerMessage|
                    b@ == spec_enc_client_message(m) implies m == m0 by {
                    lemma_enc_client_message_parts(m);
                    lemma_enc_client_message_injective_fields(m, m0);
                }
            }
            Some(m0)
        } else if t1 == 1 {
            let x = read_i64(b, 2);
            let y = read_i64(b, 10);
            let m0 = ClientToServerMessage::ActionEvent { event: Action::Shoot { x, y } };
            proof {
                lemma_enc_client_message_parts(m0);
                assert(b@ =~= spec_enc_client_message(m0));
                assert forall|m: ClientToServerMessage|
                    b@ == spec_enc_client_message(m) implies m == m0 by {
                    lemma_enc_client_message_parts(m);
                    lemma_enc_client_message_injective_fields(m, m0);
                }
            }
            Some(m0)
        } else {
            proof {
                assert forall|m: ClientToServerMessage| b@ != spec_enc_client_message(m) by {
                    lemma_enc_client_message_parts(m);
                }
            }
            None
        }
    } else if t0 == 1 {
        if b.len() != 2 {
            proof {
                assert forall|m: ClientToServerMessage| b@ != spec_enc_client_message(m) by {
                    lemma_enc_client_message_parts(m);
                }
            }
            return None;
        }
        if t1 == 0 {
            let m0 = ClientToServerMessage::ConnectionEvent { event: Connection::Join };
            proof {
                lemma_enc_client_message_parts(m0);
                assert(b@ =~= spec_enc_client_message(m0));
                assert forall|m: ClientToServerMessage|
                    b@ == spec_enc_client_message(m) implies m == m0 by {
                    lemma_enc_client_message_parts(m);
                }
            }
            Some(m0)
        } else if t1 == 1 {
            let m0 = ClientToServerMessage::ConnectionEvent { event: Connection::KeepAlive };
            proof {
                lemma_enc_client_message_parts(m0);
                assert(b@ =~= spec_enc_client_message(m0));
                assert forall|m: ClientToServerMessage|
                    b@ == spec_enc_client_message(m) implies m == m0 by {
                    lemma_enc_client_message_parts(m);
                }
            }
            Some(m0)
        } else if t1 == 2 {
            let m0 = ClientToServerMessage::ConnectionEvent { event: Connection::Drop };
            proof {
                lemma_enc_client_message_parts(m0);
                assert(b@ =~= spec_enc_client_message(m0));
                assert forall|m: ClientToServerMessage|
                    b@ == spec_enc_client_message(m) implies m == m0 by {
                    lemma_enc_client_message_parts(m);
                }
            }
            Some(m0)
        } else {
            proof {
                assert forall|m: ClientToServerMessage| b@ != spec_enc_client_message(m) by {
                    lemma_enc_client_message_parts(m);
                }
            }
            None
        }
    } else {
        proof {
            assert forall|m: ClientToServerMessage| b@ != spec_enc_client_message(m) by {
                lemma_enc_client_message_parts(m);
            }
        }
        None
    }
}

/// Two action messages with the same encoding carry the same coordinates.
proof fn lemma_enc_client_message_injective_fields(
    m: ClientToServerMessage,
    m0: ClientToServerMessage,
)
    requires
        spec_enc_client_message(m) == spec_enc_client_message(m0),
    ensures
        m == m0,
{
    lemma_auto_spec_u64_to_from_le_bytes();
    lemma_enc_client_message_parts(m);
    lemma_enc_client_message_parts(m0);
    let em = spec_enc_client_message(m);
    let e0 = spec_enc_client_message(m0);
    match (m, m0) {
        (
            ClientToServerMessage::ActionEvent { event: Action::Move { x, y } },
            ClientToServerMessage::ActionEvent { event: Action::Move { x: x0, y: y0 } },
        ) => {
            assert(spec_enc_i64(x) == spec_enc_i64(x0));
            assert(spec_u64_from_le_bytes(spec_u64_to_le_bytes(x as u64)) == x as u64);
            assert(x as u64 == x0 as u64);
            lemma_i64_cast_roundtrip(x);
            lemma_i64_cast_roundtrip(x0);
            assert(spec_enc_i64(y) == spec_enc_i64(y0));
            assert(y as u64 == y0 as u64);
            lemma_i64_cast_roundtrip(y);
            lemma_i64_cast_roundtrip(y0);
        },
        (
            ClientToServerMessage::ActionEvent { event: Action::Shoot { x, y } },
            ClientToServerMessage::ActionEvent { event: Action::Shoot { x: x0, y: y0 } },
        ) => {
            assert(spec_enc_i64(x) == spec_enc_i64(x0));
            assert(x as u64 == x0 as u64);
            lemma_i64_cast_roundtrip(x);
            lemma_i64_cast_roundtrip(x0);
            assert(spec_enc_i64(y) == spec_enc_i64(y0));
            assert(y as u64 == y0 as u64);
            lemma_i64_cast_roundtrip(y);
            lemma_i64_cast_roundtrip(y0);
        },
        _ => {},
    }
}

/// The most entities one snapshot datagram can carry; larger snapshots are
/// split over several `EntityData` messages.
pub const MAX_ENTITIES_PER_MESSAGE: usize = 44;

/// The longest display name the wire carries, in bytes.
pub const NAME_MAX: usize = 255;

/// The wire size of one snapshot entity record, in bytes.
pub const ENTITY_WIRE_SIZE: usize = 33;

/// A flag on the wire: one byte, 1 for true and 0 for false.
pub open spec fn spec_enc_bool(v: bool) -> Seq<u8> {
    if v {
        seq![1u8]
    } else {
        seq![0u8]
    }
}

/// The encoding of one snapshot entity record: identifier, position, kind
/// tag.
pub open spec fn spec_enc_entity(e: Entity) -> Seq<u8> {
    spec_u128_to_le_bytes(e.id) + spec_enc_i64(e.x) + spec_enc_i64(e.y) + seq![
        spec_entity_type_tag(e.entity_type),
    ]
}

/// The encoding of a list of snapshot entity records, one after another.
pub open spec fn spec_enc_entities(s: Seq<Entity>) -> Seq<u8>
    decreases s.len(),
{
    if s.len() == 0 {
        Seq::empty()
    } else {
        spec_enc_entities(s.drop_last()) + spec_enc_entity(s.last())
    }
}

/// The fixed-width tail of a player-data encoding: position, the stat block,
/// the two flags, and the spell costs and multipliers.
pub open spec fn spec_enc_player_data_tail(d: PlayerData) -> Seq<u8> {
    spec_enc_i64(d.x) + spec_enc_i64(d.y) + spec_u64_to_le_bytes(d.speed_stat)
        + spec_u64_to_le_bytes(d.health_stat) + spec_u64_to_le_bytes(d.mana_stat)
        + spec_u64_to_le_bytes(d.power_stat) + spec_u64_to_le_bytes(d.vitality_stat)
        + spec_u64_to_le_bytes(d.wisdom_stat) + spec_u64_to_le_bytes(d.dexterity_stat)
        + spec_u64_to_le_bytes(d.defense_stat) + spec_u64_to_le_bytes(d.current_speed)
        + spec_u64_to_le_bytes(d.current_health) + spec_u64_to_le_bytes(d.current_mana)
        + spec_enc_bool(d.is_dead) + spec_enc_bool(d.is_sprinting) + spec_u64_to_le_bytes(
        d.basic_cost,
    ) + spec_u64_to_le_bytes(d.kenetic_pulse_cost) + spec_u64_to_le_bytes(d.lightning_cost)
        + spec_u64_to_le_bytes(d.basic_power_multi) + spec_u64_to_le_bytes(
        d.kenetic_pulse_power_multi,
    ) + spec_u64_to_le_bytes(d.lightning_power_multi)
}

/// The encoding of a server-to-client message: tag 0 for a snapshot (count,
/// then the records), tag 1 for player data (identifier, length-prefixed
/// name, then the fixed tail).
pub open spec fn spec_enc_server_message(m: ServerToClientMessage) -> Seq<u8> {
    match m {
        ServerToClientMessage::EntityData { data } => seq![0u8] + spec_u16_to_le_bytes(
            data@.len() as u16,
        ) + spec_enc_entities(data@),
        ServerToClientMessage::PlayerData { data: d } => seq![1u8] + spec_u128_to_le_bytes(d.id)
            + spec_u16_to_le_bytes(d.name@.len() as u16) + d.name@ + spec_enc_player_data_tail(d),
    }
}

/// Whether a message's variable-length parts fit their wire length prefixes,
/// so that its encoding is unambiguous.
pub open spec fn spec_wire_shaped(m: ServerToClientMessage) -> bool {
    match m {
        ServerToClientMessage::EntityData { data } => data@.len() < 0x1_0000,
        ServerToClientMessage::PlayerData { data: d } => d.name@.len() < 0x1_0000,
    }
}

/// The length and field positions of one entity record's encoding.
proof fn lemma_enc_entity_parts(e: Entity)
    ensures
        spec_enc_entity(e).len() == 33,
        spec_enc_entity(e).subrange(0, 16) == spec_u128_to_le_bytes(e.id),
        spec_enc_entity(e).subrange(16, 24) == spec_enc_i64(e.x),
        spec_enc_entity(e).subrange(24, 32) == spec_enc_i64(e.y),
        spec_enc_entity(e)[32] == spec_entity_type_tag(e.entity_type),
{
    lemma_auto_spec_u64_to_from_le_bytes();
    lemma_auto_spec_u128_to_from_le_bytes();
    assert(spec_enc_entity(e).subrange(0, 16) =~= spec_u128_to_le_bytes(e.id));
    assert(spec_enc_entity(e).subrange(16, 24) =~= spec_enc_i64(e.x));
    assert(spec_enc_entity(e).subrange(24, 32) =~= spec_enc_i64(e.y));
}

/// A list of records encodes to 33 bytes per record.
proof fn lemma_enc_entities_len(s: Seq<Entity>)
    ensures
        spec_enc_entities(s).len() == 33 * s.len(),
    decreases s.len(),
{
    if s.len() == 0 {
    } else {
        lemma_enc_entities_len(s.drop_last());
        lemma_enc_entity_parts(s.last());
    }
}

/// Appending one record to a list appends its encoding to the list's.
proof fn lemma_enc_entities_push(s: Seq<Entity>, e: Entity)
    ensures
        spec_enc_entities(s.push(e)) == spec_enc_entities(s) + spec_enc_entity(e),
{
    assert(s.push(e).drop_last() =~= s);
    assert(s.push(e).last() == e);
    assert(spec_enc_entities(s.push(e)) == spec_enc_entities(s.push(e).drop_last())
        + spec_enc_entity(s.push(e).last()));
}

/// The `i`-th record's encoding sits at offset `33 * i` of the list's.
proof fn lemma_enc_entities_index(s: Seq<Entity>, i: int)
    requires
        0 <= i < s.len(),
    ensures
        spec_enc_entities(s).subrange(33 * i, 33 * i + 33) == spec_enc_entity(s[i]),
    decreases s.len(),
{
    lemma_enc_entities_len(s);
    lemma_enc_entities_len(s.drop_last());
    lemma_enc_entity_parts(s.last());
    if i == s.len() - 1 {
        assert(spec_enc_entities(s).subrange(33 * i, 33 * i + 33) =~= spec_enc_entity(s.last()));
    } else {
        lemma_enc_entities_index(s.drop_last(), i);
        assert(spec_enc_entities(s).subrange(33 * i, 33 * i + 33) =~= spec_enc_entities(
            s.drop_last(),
        ).subrange(33 * i, 33 * i + 33));
    }
}

/// A byte string made of per-record segments is the encoding of the record
/// list.
proof fn lemma_enc_entities_from_segments(s: Seq<Entity>, bytes: Seq<u8>)
    requires
        bytes.len() == 33 * s.len(),
        forall|k: int|
            0 <= k < s.len() ==> bytes.subrange(33 * k, 33 * k + 33) == spec_enc_entity(
                #[trigger] s[k],
            ),
    ensures
        spec_enc_entities(s) == bytes,
    decreases s.len(),
{
    lemma_enc_entities_len(s);
    if s.len() == 0 {
        assert(spec_enc_entities(s) =~= bytes);
    } else {
        let dl = s.drop_last();
        let n1 = dl.len() as int;
        let front = bytes.subrange(0, 33 * n1);
        assert forall|k: int| 0 <= k < n1 implies front.subrange(33 * k, 33 * k + 33)
            == spec_enc_entity(#[trigger] dl[k]) by {
            assert(front.subrange(33 * k, 33 * k + 33) =~= bytes.subrange(33 * k, 33 * k + 33));
            assert(dl[k] == s[k]);
        }
        lemma_enc_entities_from_segments(dl, front);
        assert(bytes.subrange(33 * n1, 33 * n1 + 33) == spec_enc_entity(s[n1]));
        lemma_enc_entity_parts(s.last());
        assert(spec_enc_entities(s) =~= bytes) by {
            assert(spec_enc_entities(s) == spec_enc_entities(dl) + spec_enc_entity(s.last()));
            assert forall|t: int| 0 <= t < bytes.len() implies spec_enc_entities(s)[t]
                == bytes[t] by {
                if t < 33 * n1 {
                    assert(spec_enc_entities(s)[t] == front[t]);
                } else {
                    assert(spec_enc_entities(s)[t] == spec_enc_entity(s.last())[t - 33 * n1]);
                    assert(bytes[t] == bytes.subrange(33 * n1, 33 * n1 + 33)[t - 33 * n1]);
                }
            }
        }
    }
}

/// Records with the same encoding are the same record.
proof fn lemma_enc_entity_injective(e: Entity, e0: Entity)
    requires
        spec_enc_entity(e) == spec_enc_entity(e0),
    ensures
        e == e0,
{
    lemma_auto_spec_u64_to_from_le_bytes();
    lemma_auto_spec_u128_to_from_le_bytes();
    lemma_enc_entity_parts(e);
    lemma_enc_entity_parts(e0);
    assert(spec_u128_from_le_bytes(spec_u128_to_le_bytes(e.id)) == e.id);
    assert(spec_u128_from_le_bytes(spec_u128_to_le_bytes(e0.id)) == e0.id);
    assert(e.id == e0.id);
    assert(spec_u64_from_le_bytes(spec_u64_to_le_bytes(e.x as u64)) == e.x as u64);
    assert(e.x as u64 == e0.x as u64);
    lemma_i64_cast_roundtrip(e.x);
    lemma_i64_cast_roundtrip(e0.x);
    assert(e.y as u64 == e0.y as u64);
    lemma_i64_cast_roundtrip(e.y);
    lemma_i64_cast_roundtrip(e0.y);
    crate::entity_type::lemma_entity_type_tag_roundtrip(e.entity_type);
    crate::entity_type::lemma_entity_type_tag_roundtrip(e0.entity_type);
    assert(spec_entity_type_tag(e.entity_type) == spec_entity_type_tag(e0.entity_type));
    assert(e.entity_type == e0.entity_type);
}

/// The length and field positions of a player-data tail.
proof fn lemma_enc_player_data_tail_parts(d: PlayerData)
    ensures
        spec_enc_player_data_tail(d).len() == 154,
        spec_enc_player_data_tail(d).subrange(0, 8) == spec_enc_i64(d.x),
        spec_enc_player_data_tail(d).subrange(8, 16) == spec_enc_i64(d.y),
        spec_enc_player_data_tail(d).subrange(16, 24) == spec_u64_to_le_bytes(d.speed_stat),
        spec_enc_player_data_tail(d).subrange(24, 32) == spec_u64_to_le_bytes(d.health_stat),
        spec_enc_player_data_tail(d).subrange(32, 40) == spec_u64_to_le_bytes(d.mana_stat),
        spec_enc_player_data_tail(d).subrange(40, 48) == spec_u64_to_le_bytes(d.power_stat),
        spec_enc_player_data_tail(d).subrange(48, 56) == spec_u64_to_le_bytes(d.vitality_stat),
        spec_enc_player_data_tail(d).subrange(56, 64) == spec_u64_to_le_bytes(d.wisdom_stat),
        spec_enc_player_data_tail(d).subrange(64, 72) == spec_u64_to_le_bytes(d.dexterity_stat),
        spec_enc_player_data_tail(d).subrange(72, 80) == spec_u64_to_le_bytes(d.defense_stat),
        spec_enc_player_data_tail(d).subrange(80, 88) == spec_u64_to_le_bytes(d.current_speed),
        spec_enc_player_data_tail(d).subrange(88, 96) == spec_u64_to_le_bytes(d.current_health),
        spec_enc_player_data_tail(d).subrange(96, 104) == spec_u64_to_le_bytes(d.current_mana),
        spec_enc_player_data_tail(d)[104] == (if d.is_dead {
            1u8
        } else {
            0u8
        }),
        spec_enc_player_data_tail(d)[105] == (if d.is_sprinting {
            1u8
        } else {
            0u8
        }),
        spec_enc_player_data_tail(d).subrange(106, 114) == spec_u64_to_le_bytes(d.basic_cost),
        spec_enc_player_data_tail(d).subrange(114, 122) == spec_u64_to_le_bytes(
            d.kenetic_pulse_cost,
        ),
        spec_enc_player_data_tail(d).subrange(122, 130) == spec_u64_to_le_bytes(d.lightning_cost),
        spec_enc_player_data_tail(d).subrange(130, 138) == spec_u64_to_le_bytes(
            d.basic_power_multi,
        ),
        spec_enc_player_data_tail(d).subrange(138, 146) == spec_u64_to_le_bytes(
            d.kenetic_pulse_power_multi,
        ),
        spec_enc_player_data_tail(d).subrange(146, 154) == spec_u64_to_le_bytes(
            d.lightning_power_multi,
        ),
{
    lemma_auto_spec_u64_to_from_le_bytes();
    let t = spec_enc_player_data_tail(d);
    assert(t.subrange(0, 8) =~= spec_enc_i64(d.x));
    assert(t.subrange(8, 16) =~= spec_enc_i64(d.y));
    assert(t.subrange(16, 24) =~= spec_u64_to_le_bytes(d.speed_stat));
    assert(t.subrange(24, 32) =~= spec_u64_to_le_bytes(d.health_stat));
    assert(t.subrange(32, 40) =~= spec_u64_to_le_bytes(d.mana_stat));
    assert(t.subrange(40, 48) =~= spec_u64_to_le_bytes(d.power_stat));
    assert(t.subrange(48, 56) =~= spec_u64_to_le_bytes(d.vitality_stat));
    assert(t.subrange(56, 64) =~= spec_u64_to_le_bytes(d.wisdom_stat));
    assert(t.subrange(64, 72) =~= spec_u64_to_le_bytes(d.dexterity_stat));
    assert(t.subrange(72, 80) =~= spec_u64_to_le_bytes(d.defense_stat));
    assert(t.subrange(80, 88) =~= spec_u64_to_le_bytes(d.current_speed));
    assert(t.subrange(88, 96) =~= spec_u64_to_le_bytes(d.current_health));
    assert(t.subrange(96, 104) =~= spec_u64_to_le_bytes(d.current_mana));
    assert(t.subrange(106, 114) =~= spec_u64_to_le_bytes(d.basic_cost));
    assert(t.subrange(114, 122) =~= spec_u64_to_le_bytes(d.kenetic_pulse_cost));
    assert(t.subrange(122, 130) =~= spec_u64_to_le_bytes(d.lightning_cost));
    assert(t.subrange(130, 138) =~= spec_u64_to_le_bytes(d.basic_power_multi));
    assert(t.subrange(138, 146) =~= spec_u64_to_le_bytes(d.kenetic_pulse_power_multi));
    assert(t.subrange(146, 154) =~= spec_u64_to_le_bytes(d.lightning_power_multi));
}

/// The length and field positions of every server-to-client encoding.
proof fn lemma_enc_server_message_parts(m: ServerToClientMessage)
    ensures
        match m {
            ServerToClientMessage::EntityData { data } => {
                &&& spec_enc_server_message(m).len() == 3 + 33 * data@.len()
                &&& spec_enc_server_message(m)[0] == 0u8
                &&& spec_enc_server_message(m).subrange(1, 3) == spec_u16_to_le_bytes(
                    data@.len() as u16,
                )
                &&& spec_enc_server_message(m).subrange(3, 3 + 33 * data@.len() as int)
                    == spec_enc_entities(data@)
            },
            ServerToClientMessage::PlayerData { data: d } => {
                &&& spec_enc_server_message(m).len() == 173 + d.name@.len()
                &&& spec_enc_server_message(m)[0] == 1u8
                &&& spec_enc_server_message(m).subrange(1, 17) == spec_u128_to_le_bytes(d.id)
                &&& spec_enc_server_message(m).subrange(17, 19) == spec_u16_to_le_bytes(
                    d.name@.len() as u16,
                )
                &&& spec_enc_server_message(m).subrange(19, 19 + d.name@.len() as int) == d.name@
                &&& spec_enc_server_message(m).subrange(
                    19 + d.name@.len() as int,
                    173 + d.name@.len() as int,
                ) == spec_enc_player_data_tail(d)
            },
        },
{
    lemma_auto_spec_u16_to_from_le_bytes();
    lemma_auto_spec_u128_to_from_le_bytes();
    match m {
        ServerToClientMessage::EntityData { data } => {
            lemma_enc_entities_len(data@);
            assert(spec_enc_server_message(m).subrange(1, 3) =~= spec_u16_to_le_bytes(
                data@.len() as u16,
            ));
            assert(spec_enc_server_message(m).subrange(3, 3 + 33 * data@.len() as int)
                =~= spec_enc_entities(data@));
        },
        ServerToClientMessage::PlayerData { data: d } => {
            lemma_enc_player_data_tail_parts(d);
            let n = d.name@.len() as int;
            assert(spec_enc_server_message(m).subrange(1, 17) =~= spec_u128_to_le_bytes(d.id));
            assert(spec_enc_server_message(m).subrange(17, 19) =~= spec_u16_to_le_bytes(
                d.name@.len() as u16,
            ));
            assert(spec_enc_server_message(m).subrange(19, 19 + n) =~= d.name@);
            assert(spec_enc_server_message(m).subrange(19 + n, 173 + n)
                =~= spec_enc_player_data_tail(d));
        },
    }
}

/// Well-shaped messages with the same encoding agree on every field: snapshot
/// lists are equal record for record, and player data field for field.
pub proof fn lemma_enc_server_message_injective(m1: ServerToClientMessage, m2: ServerToClientMessage)
    requires
        spec_wire_shaped(m1),
        spec_wire_shaped(m2),
        spec_enc_server_message(m1) == spec_enc_server_message(m2),
    ensures
        match (m1, m2) {
            (
                ServerToClientMessage::EntityData { data: d1 },
                ServerToClientMessage::EntityData { data: d2 },
            ) => d1@ == d2@,
            (
                ServerToClientMessage::PlayerData { data: d1 },
                ServerToClientMessage::PlayerData { data: d2 },
            ) => d1.name@ == d2.name@ && d1 == (PlayerData { name: d1.name, ..d2 }),
            _ => false,
        },
{
    lemma_auto_spec_u16_to_from_le_bytes();
    lemma_auto_spec_u64_to_from_le_bytes();
    lemma_auto_spec_u128_to_from_le_bytes();
    lemma_enc_server_message_parts(m1);
    lemma_enc_server_message_parts(m2);
    match (m1, m2) {
        (
            ServerToClientMessage::EntityData { data: d1 },
            ServerToClientMessage::EntityData { data: d2 },
        ) => {
            assert(spec_u16_to_le_bytes(d1@.len() as u16) == spec_u16_to_le_bytes(
                d2@.len() as u16,
            ));
            assert(d1@.len() as u16 == d2@.len() as u16);
            assert(d1@.len() == d2@.len());
            assert(spec_enc_entities(d1@) == spec_enc_entities(d2@));
            assert forall|k: int| 0 <= k < d1@.len() implies d1@[k] == d2@[k] by {
                lemma_enc_entities_index(d1@, k);
                lemma_enc_entities_index(d2@, k);
                lemma_enc_entity_injective(d1@[k], d2@[k]);
            }
            assert(d1@ =~= d2@);
        },
        (
            ServerToClientMessage::PlayerData { data: d1 },
            ServerToClientMessage::PlayerData { data: d2 },
        ) => {
            let e1 = spec_enc_server_message(m1);
            assert(spec_u16_to_le_bytes(d1.name@.len() as u16) == spec_u16_to_le_bytes(
                d2.name@.len() as u16,
            ));
            assert(d1.name@.len() as u16 == d2.name@.len() as u16);
            assert(d1.name@.len() == d2.name@.len());
            let n = d1.name@.len() as int;
            assert(d1.name@ == e1.subrange(19, 19 + n));
            assert(d2.name@ == e1.subrange(19, 19 + n));
            assert(spec_enc_player_data_tail(d1) == spec_enc_player_data_tail(d2));
            lemma_enc_player_data_tail_parts(d1);
            lemma_enc_player_data_tail_parts(d2);
            assert(spec_u128_from_le_bytes(spec_u128_to_le_bytes(d1.id)) == d1.id);
            assert(d1.id == d2.id);
            lemma_i64_cast_roundtrip(d1.x);
            lemma_i64_cast_roundtrip(d2.x);
            lemma_i64_cast_roundtrip(d1.y);
            lemma_i64_cast_roundtrip(d2.y);
            assert(d1.x as u64 == d2.x as u64);
            assert(d1.y as u64 == d2.y as u64);
            assert(d1.speed_stat == d2.speed_stat);
            assert(d1.health_stat == d2.health_stat);
            assert(d1.mana_stat == d2.mana_stat);
            assert(d1.power_stat == d2.power_stat);
            assert(d1.vitality_stat == d2.vitality_stat);
            assert(d1.wisdom_stat == d2.wisdom_stat);
            assert(d1.dexterity_stat == d2.dexterity_stat);
            assert(d1.defense_stat == d2.defense_stat);
            assert(d1.current_speed == d2.current_speed);
            assert(d1.current_health == d2.current_health);
            assert(d1.current_mana == d2.current_mana);
            assert(d1.is_dead == d2.is_dead);
            assert(d1.is_sprinting == d2.is_sprinting);
            assert(d1.basic_cost == d2.basic_cost);
            assert(d1.kenetic_pulse_cost == d2.kenetic_pulse_cost);
            assert(d1.lightning_cost == d2.lightning_cost);
            assert(d1.basic_power_multi == d2.basic_power_multi);
            assert(d1.kenetic_pulse_power_multi == d2.kenetic_pulse_power_multi);
            assert(d1.lightning_power_multi == d2.lightning_power_multi);
        },
        _ => {
            assert(false);
        },
    }
}

/// Whether a message fits one datagram once encoded: a snapshot of at most
/// [`MAX_ENTITIES_PER_MESSAGE`] records, or player data with a name of at
/// most [`NAME_MAX`] bytes.
pub open spec fn spec_wire_fit(m: ServerToClientMessage) -> bool {
    match m {
        ServerToClientMessage::EntityData { data } => data@.len() <= MAX_ENTITIES_PER_MESSAGE,
        ServerToClientMessage::PlayerData { data: d } => d.name@.len() <= NAME_MAX,
    }
}

/// Encodes a server-to-client message; the result always fits in one
/// datagram.
#[verifier::loop_isolation(false)]
#[verifier::rlimit(100)]
pub fn encode_server_message(m: &ServerToClientMessage) -> (r: Vec<u8>)
    requires
        spec_wire_fit(*m),
    ensures
        r@ == spec_enc_server_message(*m),
        spec_wire_shaped(*m),
        r@.len() <= MAX_DATAGRAM,
{
    let mut out: Vec<u8> = Vec::new();
    match m {
        ServerToClientMessage::EntityData { data } => {
            out.push(0u8);
            push_u16(&mut out, data.len() as u16);
            let ghost head = seq![0u8] + spec_u16_to_le_bytes(data@.len() as u16);
            proof {
                assert(spec_enc_entities(data@.subrange(0, 0)) =~= Seq::<u8>::empty());
                assert(out@ =~= head + spec_enc_entities(data@.subrange(0, 0)));
            }
            let mut i: usize = 0;
            while i < data.len()
                invariant
                    i <= data@.len(),
                    out@ == head + spec_enc_entities(data@.subrange(0, i as int)),
                decreases data@.len() - i,
            {
                let e = data[i];
                let ghost before = out@;
                push_u128(&mut out, e.id);
                push_i64(&mut out, e.x);
                push_i64(&mut out, e.y);
                out.push(e.entity_type.tag());
                proof {
                    assert(out@ =~= before + spec_enc_entity(e));
                    assert(data@.subrange(0, i + 1) =~= data@.subrange(0, i as int).push(e));
                    lemma_enc_entities_push(data@.subrange(0, i as int), e);
                }
                i = i + 1;
            }
            proof {
                assert(data@.subrange(0, data@.len() as int) =~= data@);
                lemma_enc_entities_len(data@);
                lemma_enc_server_message_parts(*m);
                assert(out@ =~= spec_enc_server_message(*m));
            }
        },
        ServerToClientMessage::PlayerData { data: d } => {
            out.push(1u8);
            push_u128(&mut out, d.id);
            push_u16(&mut out, d.name.len() as u16);
            let ghost head = seq![1u8] + spec_u128_to_le_bytes(d.id) + spec_u16_to_le_bytes(
                d.name@.len() as u16,
            );
            proof {
                assert(out@ =~= head + d.name@.subrange(0, 0));
            }
            let mut i: usize = 0;
            while i < d.name.len()
                invariant
                    i <= d.name@.len(),
                    out@ == head + d.name@.subrange(0, i as int),
                decreases d.name@.len() - i,
            {
                out.push(d.name[i]);
                proof {
                    assert(out@ =~= head + d.name@.subrange(0, i + 1));
                }
                i = i + 1;
            }
            proof {
                assert(d.name@.subrange(0, d.name@.len() as int) =~= d.name@);
            }
            push_i64(&mut out, d.x);
            push_i64(&mut out, d.y);
            push_u64(&mut out, d.speed_stat);
            push_u64(&mut out, d.health_stat);
            push_u64(&mut out, d.mana_stat);
            push_u64(&mut out, d.power_stat);
            push_u64(&mut out, d.vitality_stat);
            push_u64(&mut out, d.wisdom_stat);
            push_u64(&mut out, d.dexterity_stat);
            push_u64(&mut out, d.defense_stat);
            push_u64(&mut out, d.current_speed);
            push_u64(&mut out, d.current_health);
            push_u64(&mut out, d.current_mana);
            out.push(if d.is_dead { 1u8 } else { 0u8 });
            out.push(if d.is_sprinting { 1u8 } else { 0u8 });
            push_u64(&mut out, d.basic_cost);
            push_u64(&mut out, d.kenetic_pulse_cost);
            push_u64(&mut out, d.lightning_cost);
            push_u64(&mut out, d.basic_power_multi);
            push_u64(&mut out, d.kenetic_pulse_power_multi);
            push_u64(&mut out, d.lightning_power_multi);
            proof {
                lemma_enc_server_message_parts(*m);
                lemma_enc_player_data_tail_parts(*d);
                assert(out@ =~= spec_enc_server_message(*m));
            }
        },
    }
    proof {
        lemma_enc_server_message_parts(*m);
        match m {
            ServerToClientMessage::EntityData { data } => {},
            ServerToClientMessage::PlayerData { data: d } => {},
        }
    }
    out
}

/// Decodes a server-to-client message exactly: returns a message whose
/// encoding is the buffer, and nothing on every buffer that no well-shaped
/// message encodes to.
#[verifier::loop_isolation(false)]
#[verifier::rlimit(100)]
pub fn decode_server_message(b: &[u8]) -> (r: Option<ServerToClientMessage>)
    ensures
        r matches Some(m) ==> b@ == spec_enc_server_message(m) && spec_wire_shaped(m),
        forall|m: ServerToClientMessage|
            spec_wire_shaped(m) && b@ == spec_enc_server_message(m) ==> r is Some,
{
    let n = b.len();
    if n < 1 {
        proof {
            assert forall|m: ServerToClientMessage|
                spec_wire_shaped(m) && b@ == spec_enc_server_message(m) implies false by {
                lemma_enc_server_message_parts(m);
            }
        }
        return None;
    }
    let t0 = b[0];
    if t0 == 0 {
        if n < 3 {
            proof {
                assert forall|m: ServerToClientMessage|
                    spec_wire_shaped(m) && b@ == spec_enc_server_message(m) implies false by {
                    lemma_enc_server_message_parts(m);
                }
            }
            return None;
        }
        let count = read_u16(b, 1) as usize;
        proof {
            lemma_auto_spec_u16_to_from_le_bytes();
        }
        if n != 3 + 33 * count {
            proof {
                assert forall|m: ServerToClientMessage|
                    spec_wire_shaped(m) && b@ == spec_enc_server_message(m) implies false by {
                    lemma_enc_server_message_parts(m);
                    match m {
                        ServerToClientMessage::EntityData { data } => {
                            assert(spec_u16_to_le_bytes(data@.len() as u16) == b@.subrange(1, 3));
                            assert(spec_u16_from_le_bytes(
                                spec_u16_to_le_bytes(data@.len() as u16),
                            ) == data@.len() as u16);
                            assert(data@.len() == count);
                        },
                        ServerToClientMessage::PlayerData { data: d } => {},
                    }
                }
            }
            return None;
        }
        let mut data: Vec<Entity> = Vec::new();
        let mut i: usize = 0;
        while i < count
            invariant
                i <= count,
                data@.len() == i,
                forall|k: int|
                    0 <= k < i ==> b@.subrange(3 + 33 * k, 3 + 33 * k + 33) == spec_enc_entity(
                        #[trigger] data@[k],
                    ),
            decreases count - i,
        {
            let off = 3 + 33 * i;
            let id = read_u128(b, off);
            let x = read_i64(b, off + 16);
            let y = read_i64(b, off + 24);
            let tag = b[off + 32];
            match EntityType::from_tag(tag) {
                Some(t) => {
                    let e = Entity { id, x, y, entity_type: t };
                    proof {
                        assert(spec_entity_type_tag(e.entity_type) == tag);
                        assert(spec_enc_entity(e) =~= b@.subrange(
                            off as int,
                            off + 33,
                        ));
                    }
                    data.push(e);
                },
                None => {
                    proof {
                        assert forall|m: ServerToClientMessage|
                            spec_wire_shaped(m) && b@ == spec_enc_server_message(
                                m,
                            ) implies false by {
                            lemma_enc_server_message_parts(m);
                            match m {
                                ServerToClientMessage::EntityData { data: md } => {
                                    assert(spec_u16_from_le_bytes(
                                        spec_u16_to_le_bytes(md@.len() as u16),
                                    ) == md@.len() as u16);
                                    assert(md@.len() == count);
                                    lemma_enc_entities_index(md@, i as int);
                                    lemma_enc_entity_parts(md@[i as int]);
                                    lemma_enc_entities_len(md@);
                                    assert(b@.subrange(3, 3 + 33 * (count as int)).subrange(
                                        33 * (i as int),
                                        33 * (i as int) + 33,
                                    ) =~= b@.subrange(off as int, off + 33));
                                    assert(b@.subrange(off as int, off + 33) == spec_enc_entity(
                                        md@[i as int],
                                    ));
                                    assert(b@[off + 32] == spec_entity_type_tag(
                                        md@[i as int].entity_type,
                                    ));
                                    crate::entity_type::lemma_entity_type_tag_roundtrip(
                                        md@[i as int].entity_type,
                                    );
                                },
                                ServerToClientMessage::PlayerData { data: d } => {},
                            }
                        }
                    }
                    return None;
                },
            }
            i = i + 1;
        }
        let ghost dv = data@;
        let m0 = ServerToClientMessage::EntityData { data };
        proof {
            let nn = n as int;
            assert forall|k: int|
                0 <= k < count implies b@.subrange(3, nn).subrange(33 * k, 33 * k + 33)
                == spec_enc_entity(#[trigger] dv[k]) by {
                assert(b@.subrange(3, nn).subrange(33 * k, 33 * k + 33) =~= b@.subrange(
                    3 + 33 * k,
                    3 + 33 * k + 33,
                ));
            }
            lemma_enc_entities_from_segments(dv, b@.subrange(3, nn));
            lemma_enc_server_message_parts(m0);
            lemma_enc_entities_len(dv);
            assert(b@ =~= spec_enc_server_message(m0));
        }
        Some(m0)
    } else if t0 == 1 {
        if n < 19 {
            proof {
                assert forall|m: ServerToClientMessage|
                    spec_wire_shaped(m) && b@ == spec_enc_server_message(m) implies false by {
                    lemma_enc_server_message_parts(m);
                }
            }
            return None;
        }
        let id = read_u128(b, 1);
        let name_len = read_u16(b, 17) as usize;
        proof {
            lemma_auto_spec_u16_to_from_le_bytes();
        }
        if n != 173 + name_len {
            proof {
                assert forall|m: ServerToClientMessage|
                    spec_wire_shaped(m) && b@ == spec_enc_server_message(m) implies false by {
                    lemma_enc_server_message_parts(m);
                    match m {
                        ServerToClientMessage::PlayerData { data: d } => {
                            assert(spec_u16_to_le_bytes(d.name@.len() as u16) == b@.subrange(
                                17,
                                19,
                            ));
                            assert(spec_u16_from_le_bytes(
                                spec_u16_to_le_bytes(d.name@.len() as u16),
                            ) == d.name@.len() as u16);
                            assert(d.name@.len() == name_len);
                        },
                        ServerToClientMessage::EntityData { data } => {},
                    }
                }
            }
            return None;
        }
        let mut name: Vec<u8> = Vec::new();
        let mut k: usize = 0;
        proof {
            assert(name@ =~= b@.subrange(19, 19));
        }
        while k < name_len
            invariant
                k <= name_len,
                name@ == b@.subrange(19, 19 + k as int),
            decreases name_len - k,
        {
            name.push(b[19 + k]);
            proof {
                assert(name@ =~= b@.subrange(19, 19 + (k + 1) as int));
            }
            k = k + 1;
        }
        let base = 19 + name_len;
        let x = read_i64(b, base);
        let y = read_i64(b, base + 8);
        let speed_stat = read_u64(b, base + 16);
        let health_stat = read_u64(b, base + 24);
        let mana_stat = read_u64(b, base + 32);
        let power_stat = read_u64(b, base + 40);
        let vitality_stat = read_u64(b, base + 48);
        let wisdom_stat = read_u64(b, base + 56);
        let dexterity_stat = read_u64(b, base + 64);
        let defense_stat = read_u64(b, base + 72);
        let current_speed = read_u64(b, base + 80);
        let current_health = read_u64(b, base + 88);
        let current_mana = read_u64(b, base + 96);
        let dead_byte = b[base + 104];
        let sprint_byte = b[base + 105];
        if dead_byte > 1 || sprint_byte > 1 {
            proof {
                assert forall|m: ServerToClientMessage|
                    spec_wire_shaped(m) && b@ == spec_enc_server_message(m) implies false by {
                    lemma_enc_server_message_parts(m);
                    match m {
                        ServerToClientMessage::PlayerData { data: d } => {
                            assert(spec_u16_from_le_bytes(
                                spec_u16_to_le_bytes(d.name@.len() as u16),
                            ) == d.name@.len() as u16);
                            assert(d.name@.len() == name_len);
                            lemma_enc_player_data_tail_parts(d);
                            assert(b@.subrange(base as int, n as int)
                                == spec_enc_player_data_tail(d));
                            assert(b@[base + 104] == spec_enc_player_data_tail(d)[104]);
                            assert(b@[base + 105] == spec_enc_player_data_tail(d)[105]);
                        },
                        ServerToClientMessage::EntityData { data } => {},
                    }
                }
            }
            return None;
        }
        let is_dead = dead_byte == 1;
        let is_sprinting = sprint_byte == 1;
        let basic_cost = read_u64(b, base + 106);
        let kenetic_pulse_cost = read_u64(b, base + 114);
        let lightning_cost = read_u64(b, base + 122);
        let basic_power_multi = read_u64(b, base + 130);
        let kenetic_pulse_power_multi = read_u64(b, base + 138);
        let lightning_power_multi = read_u64(b, base + 146);
        let d = PlayerData {
            id,
            name,
            x,
            y,
            speed_stat,
            health_stat,
            mana_stat,
            power_stat,
            vitality_stat,
            wisdom_stat,
            dexterity_stat,
            defense_stat,
            current_speed,
            current_health,
            current_mana,
            is_dead,
            is_sprinting,
            basic_cost,
            kenetic_pulse_cost,
            lightning_cost,
            basic_power_multi,
            kenetic_pulse_power_multi,
            lightning_power_multi,
        };
        let m0 = ServerToClientMessage::PlayerData { data: d };
        proof {
            lemma_enc_player_data_tail_parts(d);
            assert(spec_enc_player_data_tail(d) =~= b@.subrange(base as int, n as int));
            lemma_enc_server_message_parts(m0);
            assert(b@ =~= spec_enc_server_message(m0));
        }
        Some(m0)
    } else {
        proof {
            assert forall|m: ServerToClientMessage|
                spec_wire_shaped(m) && b@ == spec_enc_server_message(m) implies false by {
                lemma_enc_server_message_parts(m);
            }
        }
        None
    }
}

} // verus!
