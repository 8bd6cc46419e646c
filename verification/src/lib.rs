//! Authoritative client-server game-state synchronization.
//!
//! A server runs a fixed-tick simulation of player characters, enemies and
//! projectiles, and broadcasts binary snapshots of the world over unreliable
//! datagrams. Clients buffer the two most recent confirmed positions of each
//! entity and interpolate between them for rendering. This crate holds the
//! simulation, the wire protocol and both gateways' message handling; the
//! sockets themselves live with the caller.

pub mod client_gateway;
pub mod codec;
pub mod components;
pub mod enemy_character;
pub mod entity_type;
pub mod factory;
pub mod game_world;
pub mod ids;
pub mod player_character;
pub mod player_projectile;
pub mod protocol;
pub mod server_gateway;
pub mod spell;
pub mod tick;
pub mod units;

pub use units::Vec2i;
