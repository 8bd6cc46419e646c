//! The whole loop, without a socket: a client joins, moves for a simulated
//! second, appears in broadcasts, casts, and drops.

use gamesync::client_gateway::{proccess_server_message, ClientApplyOutcome, GraphicsStore};
use gamesync::codec::{decode_server_message, encode_client_message};
use gamesync::entity_type::EntityType;
use gamesync::game_world::GameWorld;
use gamesync::protocol::{ClientToServerMessage, ServerToClientMessage};
use gamesync::server_gateway::{
    game_state_messages, proccess_net_message, snapshot_datagrams, ApplyOutcome, ConnectionTable,
};
use gamesync::spell::Spell;
use gamesync::tick::TICK_PERIOD_US;
use gamesync::units::Vec2i;

const JOIN_NAME: &[u8] = b"Joseph";

fn join(
    table: &mut ConnectionTable,
    world: &mut GameWorld,
    address: &str,
) -> u128 {
    let bytes = encode_client_message(&ClientToServerMessage::package_connection_join());
    let sender = address.to_string();
    match proccess_net_message(&bytes, &sender, table, world, JOIN_NAME) {
        ApplyOutcome::Joined { id } => id,
        other => panic!("join was not applied: {:?}", other),
    }
}

#[test]
fn join_move_broadcast_and_drop() {
    let mut world = GameWorld::new();
    let mut table = ConnectionTable::new();
    let sender = "127.0.0.1:50000".to_string();

    // Join: the server creates a player with default stats at the origin and
    // remembers the sender's address.
    let id = join(&mut table, &mut world, &sender);
    assert_eq!(table.len(), 1);
    assert_eq!(table.lookup(&sender), Some(id));
    assert_eq!(world.player_characters.len(), 1);
    assert_eq!(world.player_characters[0].get_position(), Vec2i { x: 0, y: 0 });
    assert_eq!(world.player_characters[0].get_name(), JOIN_NAME.to_vec());

    // The next snapshot reports the player at its spawn position.
    let snap = world.snapshot();
    assert_eq!(snap.len(), 1);
    assert_eq!(snap[0].id, id);
    assert_eq!((snap[0].x, snap[0].y), (0, 0));
    assert_eq!(snap[0].entity_type, EntityType::PlayerCharacter);

    // Move right for 64 ticks at 64 Hz: after one simulated second the x
    // position has grown by exactly the current speed (2.68 units).
    let mv = encode_client_message(&ClientToServerMessage::package_action_move(1000, 0));
    for _ in 0..64 {
        match proccess_net_message(&mv, &sender, &mut table, &mut world, JOIN_NAME) {
            ApplyOutcome::MoveBuffered { id: moved, x, y } => {
                assert_eq!((moved, x, y), (id, 1000, 0));
            }
            other => panic!("move was not buffered: {:?}", other),
        }
        world.fixed_update(TICK_PERIOD_US);
    }
    assert_eq!(world.player_characters[0].get_position(), Vec2i { x: 2_680_000, y: 0 });
    assert_eq!(world.clock, 64 * TICK_PERIOD_US);

    // The broadcast for this tick: one connection, one snapshot chunk, plus
    // the connection's own private stat block and nothing else.
    let outbound = game_state_messages(&table, &world);
    assert_eq!(outbound.len(), 1);
    let (address, datagrams) = &outbound[0];
    assert_eq!(address, &sender);
    assert_eq!(datagrams.len(), 2);
    match decode_server_message(&datagrams[0]) {
        Some(ServerToClientMessage::EntityData { data }) => {
            assert_eq!(data.len(), 1);
            assert_eq!(data[0].id, id);
            assert_eq!(data[0].x, 2_680_000);
        }
        other => panic!("expected the snapshot first, got {:?}", other),
    }
    match decode_server_message(&datagrams[1]) {
        Some(ServerToClientMessage::PlayerData { data }) => {
            assert_eq!(data.id, id);
            assert_eq!(data.x, 2_680_000);
            assert_eq!(data.current_health, 1_000);
            assert_eq!(data.name, JOIN_NAME.to_vec());
        }
        other => panic!("expected this player's stat block, got {:?}", other),
    }

    // The client merges two consecutive snapshots and interpolates between
    // the two confirmed positions.
    let mut store = GraphicsStore::new();
    match proccess_server_message(&datagrams[0], &mut store) {
        ClientApplyOutcome::EntityDataApplied { data } => assert_eq!(data.len(), 1),
        other => panic!("snapshot was not applied: {:?}", other),
    }
    world.fixed_update(TICK_PERIOD_US);
    let later = snapshot_datagrams(&world);
    assert_eq!(later.len(), 1);
    // no further move was buffered, so the position is unchanged; the store
    // shifts its look-ahead all the same
    match proccess_server_message(&later[0], &mut store) {
        ClientApplyOutcome::EntityDataApplied { data } => assert_eq!(data.len(), 1),
        other => panic!("snapshot was not applied: {:?}", other),
    }
    let g = store.lookup(id).expect("the player is drawable after a snapshot");
    assert_eq!(g.get_this_x(), 2_680_000);
    assert_eq!(g.get_next_x(), 2_680_000);
    let drawn = g.draw_position(7_812, TICK_PERIOD_US);
    assert_eq!(drawn.x, 2_680_000);

    // Drop: the address disappears from the table and the player from the
    // world, so later broadcasts no longer include either.
    let bye = encode_client_message(&ClientToServerMessage::package_connection_drop());
    assert_eq!(
        proccess_net_message(&bye, &sender, &mut table, &mut world, JOIN_NAME),
        ApplyOutcome::Dropped
    );
    assert_eq!(table.len(), 0);
    assert_eq!(world.player_characters.len(), 0);
    assert_eq!(world.snapshot().len(), 0);
    assert_eq!(game_state_messages(&table, &world).len(), 0);
}

#[test]
fn malformed_and_unattributed_datagrams_change_nothing()
{
    let mut world = GameWorld::new();
    let mut table = ConnectionTable::new();
    let sender = "127.0.0.1:50001".to_string();

    // garbage bytes are dropped, not crashed on
    let garbage = vec![9u8, 9, 9, 9];
    assert_eq!(
        proccess_net_message(&garbage, &sender, &mut table, &mut world, JOIN_NAME),
        ApplyOutcome::DecodeFailed
    );
    assert_eq!(table.len(), 0);
    assert_eq!(world.player_characters.len(), 0);

    // an action from an address that never joined is ignored
    let mv = encode_client_message(&ClientToServerMessage::package_action_move(0, 1000));
    assert_eq!(
        proccess_net_message(&mv, &sender, &mut table, &mut world, JOIN_NAME),
        ApplyOutcome::UnknownSender
    );

    // a move whose components exceed the unit scale is refused
    let id = join(&mut table, &mut world, &sender);
    let wild = encode_client_message(&ClientToServerMessage::package_action_move(5_000, 0));
    assert_eq!(
        proccess_net_message(&wild, &sender, &mut table, &mut world, JOIN_NAME),
        ApplyOutcome::InvalidAction
    );
    assert_eq!(world.player_characters[0].get_uuid(), id);
    assert_eq!(world.player_characters[0].get_movement(), None);

    // a keep-alive is acknowledged and does nothing
    let ka = encode_client_message(&ClientToServerMessage::package_connection_keep_alive());
    assert_eq!(
        proccess_net_message(&ka, &sender, &mut table, &mut world, JOIN_NAME),
        ApplyOutcome::KeptAlive
    );

    // the client side drops garbage the same way
    let mut store = GraphicsStore::new();
    match proccess_server_message(&garbage, &mut store) {
        ClientApplyOutcome::DecodeFailed => {}
        other => panic!("garbage was not dropped: {:?}", other),
    }
    assert_eq!(store.len(), 0);
}

#[test]
fn shoot_is_buffered_and_a_cast_spawns_one_projectile() {
    let mut world = GameWorld::new();
    let mut table = ConnectionTable::new();
    let sender = "127.0.0.1:50002".to_string();
    let id = join(&mut table, &mut world, &sender);

    // the cast target lands in the player's pending buffer
    let shoot = encode_client_message(&ClientToServerMessage::package_action_shoot(5_000_000, 0));
    match proccess_net_message(&shoot, &sender, &mut table, &mut world, JOIN_NAME) {
        ApplyOutcome::ShootBuffered { id: target, x, y } => {
            assert_eq!((target, x, y), (id, 5_000_000, 0));
        }
        other => panic!("shoot was not buffered: {:?}", other),
    }
    assert_eq!(world.player_characters[0].get_shootment(), Some(Vec2i { x: 5_000_000, y: 0 }));

    // consuming the pending casts spawns exactly one basic projectile flying
    // towards the target, and clears the buffer
    let mana_before = world.player_characters[0].get_mana();
    let ids = vec![4242u128];
    world.consume_pending_casts_with_ids(&ids);
    assert_eq!(world.player_characters[0].get_shootment(), None);
    assert_eq!(world.player_projectiles.len(), 1);
    let proj = &world.player_projectiles[0];
    assert_eq!(proj.get_uuid(), 4242);
    assert_eq!(proj.get_entity_type(), EntityType::BasicAttack);
    assert_eq!(proj.direction, Vec2i { x: 1000, y: 0 });
    // the basic attack costs nothing, so mana is unchanged — exactly the cost
    assert_eq!(
        world.player_characters[0].get_mana(),
        mana_before - world.player_characters[0].get_mana_cost(&Spell::Basic)
    );

    // the projectile is reported while it lives and culled once expired
    assert_eq!(world.snapshot().len(), 2);
    let mut ticks = 0u64;
    while ticks * TICK_PERIOD_US < 3_200_000 {
        world.fixed_update(TICK_PERIOD_US);
        ticks += 1;
    }
    assert!(world.player_projectiles[0].is_expired());
    assert_eq!(world.snapshot().len(), 2);
    world.cull_expired_projectiles();
    assert_eq!(world.player_projectiles.len(), 0);
    assert_eq!(world.snapshot().len(), 1);
}

#[test]
fn large_worlds_are_broadcast_in_chunks() {
    let mut world = GameWorld::new();
    // a hundred enemies need three datagrams of at most 44 records
    for i in 0..100u128 {
        let e = gamesync::enemy_character::EnemyCharacter::new(
            gamesync::enemy_character::EnemyType::Crawler,
            Vec2i { x: i as i64, y: 0 },
            i + 1,
        );
        assert!(world.add_enemy_character(e));
    }
    let datagrams = snapshot_datagrams(&world);
    assert_eq!(datagrams.len(), 3);
    let mut seen = 0usize;
    for (k, d) in datagrams.iter().enumerate() {
        assert!(d.len() <= gamesync::codec::MAX_DATAGRAM);
        match decode_server_message(d) {
            Some(ServerToClientMessage::EntityData { data }) => {
                assert_eq!(data.len(), if k < 2 { 44 } else { 12 });
                seen += data.len();
            }
            other => panic!("expected a snapshot chunk, got {:?}", other),
        }
    }
    assert_eq!(seen, 100);

    // an empty world still broadcasts one (empty) snapshot
    let empty = snapshot_datagrams(&GameWorld::new());
    assert_eq!(empty.len(), 1);
    match decode_server_message(&empty[0]) {
        Some(ServerToClientMessage::EntityData { data }) => assert_eq!(data.len(), 0),
        other => panic!("expected an empty snapshot, got {:?}", other),
    }
}

#[test]
fn store_merge_keeps_one_tick_of_lookahead() {
    let mut world = GameWorld::new();
    let mut table = ConnectionTable::new();
    let sender = "127.0.0.1:50003".to_string();
    let id = join(&mut table, &mut world, &sender);
    let mut store = GraphicsStore::new();

    // first sight: both buffered positions are the reported one
    let first = snapshot_datagrams(&world);
    proccess_server_message(&first[0], &mut store);
    let g0 = store.lookup(id).unwrap();
    assert_eq!(g0.get_this_position_vec2(), g0.get_next_position_vec2());
    assert_eq!(g0.get_this_x(), 0);

    // after a move, the store shifts: this <- old next, next <- new report
    let mv = encode_client_message(&ClientToServerMessage::package_action_move(1000, 0));
    proccess_net_message(&mv, &sender, &mut table, &mut world, JOIN_NAME);
    world.fixed_update(TICK_PERIOD_US);
    let second = snapshot_datagrams(&world);
    proccess_server_message(&second[0], &mut store);
    let g1 = store.lookup(id).unwrap();
    assert_eq!(g1.get_this_x(), 0);
    assert_eq!(g1.get_next_x(), 41_875);
    assert_eq!(g1.get_entity_type(), EntityType::PlayerCharacter);
    assert_eq!(store.len(), 1);
}
