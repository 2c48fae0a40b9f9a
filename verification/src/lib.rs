//! Authoritative core of a realtime 2D arena shooter: the binary wire
//! protocol, the tile map, the per-room state machine and the room registry.
//!
//! Positions, velocities and angles cross this library as the bit patterns of
//! IEEE-754 single-precision numbers (`u32`); the library moves and frames
//! them and never computes with them.

pub mod console;
pub mod constants;
pub mod decode;
pub mod decode_server;
pub mod encode;
pub mod events;
pub mod frames;
pub mod game;
pub mod listing;
pub mod manager;
pub mod map;
pub mod map_text;
pub mod player;
pub mod player_store;
pub mod room;
pub mod room_task;
pub mod roundtrip;
pub mod session;
pub mod snapshot;
pub mod text;
pub mod tilemap;
pub mod trusted;
pub mod types;
pub mod wire;
