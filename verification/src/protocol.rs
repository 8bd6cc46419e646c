//! The wire protocol: the two closed message families exchanged between
//! client and server, as plain data. Construction helpers package typed
//! payloads into the tagged envelopes; they perform no I/O. The binary
//! encoding lives in [`crate::codec`].

use vstd::prelude::*;
use crate::entity_type::EntityType;
use crate::player_character::PlayerCharacter;

verus! {

/// An action a client asks the server to perform on its player character.
#[derive(Clone, Copy, Debug, PartialEq, Eq, Structural)]
pub enum Action {
    /// Walk along a direction; a unit vector in milli-scale components.
    Move { x: i64, y: i64 },
    /// Cast towards a world position, in micro-units.
    Shoot { x: i64, y: i64 },
}

/// A connection lifecycle event a client reports to the server.
#[derive(Clone, Copy, Debug, PartialEq, Eq, Structural)]
pub enum Connection {
    Join,
    KeepAlive,
    Drop,
}

/// Everything a client can say to the server.
#[derive(Clone, Copy, Debug, PartialEq, Eq, Structural)]
pub enum ClientToServerMessage {
    ActionEvent { event: Action },
    ConnectionEvent { event: Connection },
}

/// One entity of a world snapshot: identifier, position and kind.
#[derive(Clone, Copy, Debug, PartialEq, Eq, Structural)]
pub struct Entity {
    /// Identifier; unique within each snapshot.
    pub id: u128,
    /// World position, x, in micro-units.
    pub x: i64,
    /// World position, y, in micro-units.
    pub y: i64,
    /// What kind of entity this is.
    pub entity_type: EntityType,
}

/// The full private stat block of one player, sent only to that player's own
/// client.
#[derive(Clone, Debug, PartialEq, Eq)]
pub struct PlayerData {
    pub id: u128,
    /// Display name, as raw bytes of the client-supplied text.
    pub name: Vec<u8>,
    /// World position, in micro-units.
    pub x: i64,
    pub y: i64,
    /// Stats, in milli-points (speeds in milli-units per second).
    pub speed_stat: u64,
    pub health_stat: u64,
    pub mana_stat: u64,
    pub power_stat: u64,
    pub vitality_stat: u64,
    pub wisdom_stat: u64,
    pub dexterity_stat: u64,
    pub defense_stat: u64,
    pub current_speed: u64,
    pub current_health: u64,
    pub current_mana: u64,
    pub is_dead: bool,
    pub is_sprinting: bool,
    pub basic_cost: u64,
    pub kenetic_pulse_cost: u64,
    pub lightning_cost: u64,
    pub basic_power_multi: u64,
    pub kenetic_pulse_power_multi: u64,
    pub lightning_power_multi: u64,
}

/// Everything the server can say to a client.
#[derive(Clone, Debug)]
pub enum ServerToClientMessage {
    /// The broadcast snapshot: every live entity's identifier, position and
    /// kind.
    EntityData { data: Vec<Entity> },
    /// One player's private stat block, unicast to that player alone.
    PlayerData { data: PlayerData },
}

impl ClientToServerMessage {
    /// Packages a movement action: `direction` is a unit vector in
    /// milli-scale components.
    pub fn package_action_move(x: i64, y: i64) -> (r: ClientToServerMessage)
        ensures
            r == (ClientToServerMessage::ActionEvent { event: Action::Move { x, y } }),
    {
        ClientToServerMessage::ActionEvent { event: Action::Move { x, y } }
    }

    /// Packages a cast action towards a world position in micro-units.
    pub fn package_action_shoot(x: i64, y: i64) -> (r: ClientToServerMessage)
        ensures
            r == (ClientToServerMessage::ActionEvent { event: Action::Shoot { x, y } }),
    {
        ClientToServerMessage::ActionEvent { event: Action::Shoot { x, y } }
    }

    /// Packages the join event a client sends once at startup.
    pub fn package_connection_join() -> (r: ClientToServerMessage)
        ensures
            r == (ClientToServerMessage::ConnectionEvent { event: Connection::Join }),
    {
        ClientToServerMessage::ConnectionEvent { event: Connection::Join }
    }

    /// Packages the keep-alive event.
    pub fn package_connection_keep_alive() -> (r: ClientToServerMessage)
        ensures
            r == (ClientToServerMessage::ConnectionEvent { event: Connection::KeepAlive }),
    {
        ClientToServerMessage::ConnectionEvent { event: Connection::KeepAlive }
    }

    /// Packages the drop event a client sends on exit.
    pub fn package_connection_drop() -> (r: ClientToServerMessage)
        ensures
            r == (ClientToServerMessage::ConnectionEvent { event: Connection::Drop }),
    {
        ClientToServerMessage::ConnectionEvent { event: Connection::Drop }
    }
}

impl ServerToClientMessage {
    /// Packages a snapshot broadcast.
    pub fn package_entity_data(data: Vec<Entity>) -> (r: ServerToClientMessage)
        ensures
            r == (ServerToClientMessage::EntityData { data }),
    {
        ServerToClientMessage::EntityData { data }
    }

    /// Packages one player's private stat block.
    pub fn package_player_data(data: PlayerData) -> (r: ServerToClientMessage)
        ensures
            r == (ServerToClientMessage::PlayerData { data }),
    {
        ServerToClientMessage::PlayerData { data }
    }
}

/// The `PlayerData` view of a player character: every stat field copied, the
/// pending-action buffers left out.
pub open spec fn spec_player_data_of(p: PlayerCharacter) -> PlayerData {
    PlayerData {
        id: p.id,
        name: p.name,
        x: p.position.x,
        y: p.position.y,
        speed_stat: p.speed_stat,
        health_stat: p.health_stat,
        mana_stat: p.mana_stat,
        power_stat: p.power_stat,
        vitality_stat: p.vitality_stat,
        wisdom_stat: p.wisdom_stat,
        dexterity_stat: p.dexterity_stat,
        defense_stat: p.defense_stat,
        current_speed: p.current_speed,
        current_health: p.current_health,
        current_mana: p.current_mana,
        is_dead: p.is_dead,
        is_sprinting: p.is_sprinting,
        basic_cost: p.basic_cost,
        kenetic_pulse_cost: p.kenetic_pulse_cost,
        lightning_cost: p.lightning_cost,
        basic_power_multi: p.basic_power_multi,
        kenetic_pulse_power_multi: p.kenetic_pulse_power_multi,
        lightning_power_multi: p.lightning_power_multi,
    }
}

/// Builds the `PlayerData` message body for one player character.
pub fn player_data_of(p: &PlayerCharacter) -> (r: PlayerData)
    ensures
        r.name@ == spec_player_data_of(*p).name@,
        r == (PlayerData { name: r.name, ..spec_player_data_of(*p) }),
{
    PlayerData {
        id: p.get_uuid(),
        name: p.get_name(),
        x: p.get_position().x,
        y: p.get_position().y,
        speed_stat: p.get_speed_stat(),
        health_stat: p.get_health_stat(),
        mana_stat: p.get_mana_stat(),
        power_stat: p.get_power_stat(),
        vitality_stat: p.get_vitality_stat(),
        wisdom_stat: p.get_wisdom_stat(),
        dexterity_stat: p.get_dexterity_stat(),
        defense_stat: p.get_defense_stat(),
        current_speed: p.get_current_speed(),
        current_health: p.get_health(),
        current_mana: p.get_mana(),
        is_dead: p.is_dead(),
        is_sprinting: p.is_sprinting(),
        basic_cost: p.get_basic_cost(),
        kenetic_pulse_cost: p.get_kenetic_pulse_cost(),
        lightning_cost: p.get_lightning_cost(),
        basic_power_multi: p.get_basic_multi(),
        kenetic_pulse_power_multi: p.get_kenetic_pulse_multi(),
        lightning_power_multi: p.get_lightning_multi(),
    }
}

} // verus!
