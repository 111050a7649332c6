//! A Minecraft Java Edition protocol codec and the per-connection logic of a
//! small status/login proxy, with machine-checked contracts.

pub mod codec;
pub mod connection;
pub mod containers;
pub mod cursor;
pub mod error;
pub mod events;
pub mod login;
pub mod motd;
pub mod fixed;
pub mod helper;
pub mod laws;
pub mod packets;
pub mod play;
pub mod primitives;
pub mod status;
pub mod stream;
pub mod text;
pub mod varint;
