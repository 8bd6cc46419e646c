//! The wire codec: every message decodes back to itself, and malformed
//! buffers are rejected rather than misread.

use gamesync::codec::{
    decode_client_message, decode_server_message, encode_client_message, encode_server_message,
    MAX_DATAGRAM,
};
use gamesync::entity_type::EntityType;
use gamesync::protocol::{
    Action, ClientToServerMessage, Connection, Entity, PlayerData, ServerToClientMessage,
};

fn sample_player_data() -> PlayerData {
    PlayerData {
        id: 77,
        name: b"Joseph".to_vec(),
        x: -1_500_000,
        y: 2_750_000,
        speed_stat: 2_680,
        health_stat: 100_000,
        mana_stat: 100_000,
        power_stat: 10_000,
        vitality_stat: 1_000,
        wisdom_stat: 2_500,
        dexterity_stat: 2_000,
        defense_stat: 0,
        current_speed: 5_360,
        current_health: 1_000,
        current_mana: 1_000,
        is_dead: false,
        is_sprinting: true,
        basic_cost: 0,
        kenetic_pulse_cost: 10_000,
        lightning_cost: 30_000,
        basic_power_multi: 1_000,
        kenetic_pulse_power_multi: 2_000,
        lightning_power_multi: 5_000,
    }
}

#[test]
fn client_messages_round_trip() {
    let messages = vec![
        ClientToServerMessage::package_action_move(707, -707),
        ClientToServerMessage::package_action_shoot(-4_000_000, 123),
        ClientToServerMessage::package_connection_join(),
        ClientToServerMessage::package_connection_keep_alive(),
        ClientToServerMessage::package_connection_drop(),
    ];
    for m in messages {
        let bytes = encode_client_message(&m);
        assert!(bytes.len() <= MAX_DATAGRAM);
        let back = decode_client_message(&bytes);
        assert_eq!(back, Some(m));
    }
}

#[test]
fn client_message_wire_layout_is_stable() {
    let join = encode_client_message(&ClientToServerMessage::package_connection_join());
    assert_eq!(join, vec![1u8, 0u8]);
    let drop_msg = encode_client_message(&ClientToServerMessage::package_connection_drop());
    assert_eq!(drop_msg, vec![1u8, 2u8]);
    let mv = encode_client_message(&ClientToServerMessage::package_action_move(1, 0));
    assert_eq!(mv.len(), 18);
    assert_eq!(&mv[0..2], &[0u8, 0u8]);
    assert_eq!(&mv[2..10], &1i64.to_le_bytes());
    assert_eq!(&mv[10..18], &0i64.to_le_bytes());
}

#[test]
fn malformed_client_buffers_are_rejected() {
    assert_eq!(decode_client_message(&[]), None);
    assert_eq!(decode_client_message(&[9u8]), None);
    assert_eq!(decode_client_message(&[9u8, 9u8]), None);
    assert_eq!(decode_client_message(&[1u8, 7u8]), None);
    // an action message cut short
    assert_eq!(decode_client_message(&[0u8, 0u8, 1, 2, 3]), None);
    // a connection message with a trailing byte
    assert_eq!(decode_client_message(&[1u8, 0u8, 0u8]), None);
}

#[test]
fn entity_data_round_trips() {
    let data = vec![
        Entity { id: 1, x: 0, y: 0, entity_type: EntityType::Ghoul },
        Entity { id: 2, x: -41_875, y: 41_875, entity_type: EntityType::PlayerCharacter },
        Entity { id: 3, x: 7, y: -9, entity_type: EntityType::BasicAttack },
    ];
    let msg = ServerToClientMessage::package_entity_data(data.clone());
    let bytes = encode_server_message(&msg);
    assert_eq!(bytes.len(), 3 + 33 * 3);
    assert!(bytes.len() <= MAX_DATAGRAM);
    match decode_server_message(&bytes) {
        Some(ServerToClientMessage::EntityData { data: back }) => assert_eq!(back, data),
        other => panic!("expected an entity-data message, got {:?}", other),
    }
}

#[test]
fn player_data_round_trips() {
    let d = sample_player_data();
    let msg = ServerToClientMessage::package_player_data(d.clone());
    let bytes = encode_server_message(&msg);
    assert_eq!(bytes.len(), 173 + d.name.len());
    assert!(bytes.len() <= MAX_DATAGRAM);
    match decode_server_message(&bytes) {
        Some(ServerToClientMessage::PlayerData { data: back }) => assert_eq!(back, d),
        other => panic!("expected a player-data message, got {:?}", other),
    }
}

#[test]
fn malformed_server_buffers_are_rejected() {
    assert_eq!(decode_server_message(&[]).is_none(), true);
    assert!(decode_server_message(&[2u8, 0, 0]).is_none());
    // entity data whose length does not match its count
    assert!(decode_server_message(&[0u8, 1, 0, 5]).is_none());
    // entity record with an invalid kind tag
    let mut bytes = encode_server_message(&ServerToClientMessage::package_entity_data(vec![
        Entity { id: 9, x: 1, y: 2, entity_type: EntityType::Coin },
    ]));
    let last = bytes.len() - 1;
    bytes[last] = 200;
    assert!(decode_server_message(&bytes).is_none());
    // player data with an out-of-range flag byte
    let d = sample_player_data();
    let mut pd = encode_server_message(&ServerToClientMessage::package_player_data(d.clone()));
    let dead_flag_at = 19 + d.name.len() + 104;
    pd[dead_flag_at] = 2;
    assert!(decode_server_message(&pd).is_none());
    // player data cut short
    let short = &encode_server_message(&ServerToClientMessage::package_player_data(d))[0..40];
    assert!(decode_server_message(short).is_none());
}

#[test]
fn entity_type_tags_cover_the_closed_set() {
    let kinds = [
        EntityType::PlayerCharacter,
        EntityType::BasicAttack,
        EntityType::KeneticPulse,
        EntityType::Lightning,
        EntityType::ArmsDealer,
        EntityType::Ghoul,
        EntityType::Phantom,
        EntityType::Drinker,
        EntityType::Crawler,
        EntityType::Coin,
        EntityType::LootBag,
    ];
    for (i, k) in kinds.iter().enumerate() {
        assert_eq!(k.tag() as usize, i);
        assert_eq!(EntityType::from_tag(k.tag()), Some(*k));
    }
    assert_eq!(EntityType::from_tag(11), None);
    assert_eq!(EntityType::from_tag(255), None);
}
