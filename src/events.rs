use vstd::prelude::*;

use crate::cursor::Cursor;

verus! {

/// Asks to open a connection to a server.
#[derive(Debug, Clone)]
pub struct ServerConnectEvent {
    /// The address to connect to, with its port, e.g. `127.0.0.1:25565`.
    pub ip: String,
    /// The player name to log in with.
    pub username: String,
}

/// Tells that a connection ended, and why.
#[derive(Debug, Clone)]
pub struct DisconnectEvent {
    pub reason: String,
}

/// Tells the world's age and time of day, in ticks (twenty a second).
#[derive(Debug, Clone, Copy, PartialEq, Eq, Structural)]
pub struct UpdateTimeEvent {
    /// Ticks since the world was made; commands do not change it.
    pub world_age: i64,
    /// The time of day, in ticks.
    pub time: i64,
}

/// Tells that a packet was read: its id, and its contents without the
/// length prefix, to be decoded with `helper::read_packet`.
#[derive(Debug)]
pub struct RecievePacketEvent {
    /// The packet id; check it against the packet expected.
    pub id: i32,
    /// The frame's contents (id and body).
    pub packet: Cursor,
}

/// Asks that bytes be written to the stream as they are, e.g. a frame made
/// with `helper::to_bytes`.
#[derive(Debug)]
pub struct SendPacketEvent {
    pub packet: Cursor,
}

} // verus!
