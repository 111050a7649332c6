use vstd::prelude::*;

use crate::error::{MinecraftReadError, MinecraftWriteError};
use crate::packets::{
    HandshakePacket, LoginStartPacket, NextState, PingRequestPacket, PongResponsePacket,
    StatusRequestPacket, StatusResponsePacket,
};
use crate::status::{offline_status, online_status, status_json, Config, PLAYERS_PATTERN, regex_capture};
use crate::stream::{frame_encode, packet_parse, read_packet_contents, write_frame};
use crate::varint::varint_parse;
use crate::codec::MinecraftReadableVar;
use crate::cursor::Cursor;

verus! {

/// The port of the upstream server.
pub const UPSTREAM_PORT: u16 = 25565;

/// How many status request/response rounds a client may make before the
/// connection is closed.
pub const MAX_STATUS_EXCHANGES: u8 = 2;

/// Why a connection was closed.
#[derive(Debug, Clone, Copy, PartialEq, Eq, Structural)]
pub enum ConnectionError {
    /// The client's bytes could not be decoded.
    Read(MinecraftReadError),
    /// A reply could not be encoded.
    Write(MinecraftWriteError),
    /// An event came that the connection's state does not wait for.
    UnexpectedEvent,
}

/// Where a connection stands.
#[derive(Debug)]
pub enum ConnectionState {
    /// Waiting for the client's handshake.
    AwaitingHandshake,
    /// In the status phase, after `exchanges` rounds, waiting for a frame.
    Status { exchanges: u8 },
    /// In the status phase, waiting for the upstream probe's result.
    AwaitingStatusProbe { exchanges: u8 },
    /// In the login phase, waiting for the client's login start; holds the
    /// handshake, its server address already rewritten.
    AwaitingLoginStart { handshake: HandshakePacket },
    /// Copying bytes between client and upstream.
    Forwarding,
    /// Done.
    Closed,
}

/// What happened, as the driver of a connection reports it.
#[derive(Debug)]
pub enum ConnectionEvent {
    /// The contents of one frame from the client (what its length prefix
    /// counts).
    Frame(Vec<u8>),
    /// The upstream server's status document, or `None` where it could not
    /// be had in time.
    ProbeResult(Option<String>),
    /// The client closed its side.
    ClientClosed,
}

/// What the driver of a connection is to do next.
#[derive(Debug)]
pub enum ConnectionAction {
    /// Read the next frame from the client and report it.
    ReadFrame,
    /// Ask the upstream server for its status and report the result.
    ProbeUpstream,
    /// Send these bytes to the client, then read the next frame.
    Reply(Vec<u8>),
    /// Send these bytes to the client, then close.
    ReplyAndClose(Vec<u8>),
    /// Connect to the upstream server, send it these bytes, then copy bytes
    /// both ways until either side closes.
    Handoff(Vec<u8>),
    /// Close the connection, with the error that caused it, if any.
    Close(Option<ConnectionError>),
}

/// The model of a connection's state.
pub enum StateView {
    AwaitingHandshake,
    Status(u8),
    AwaitingStatusProbe(u8),
    AwaitingLoginStart((i32, Seq<char>, u16, NextState)),
    Forwarding,
    Closed,
}

/// The model of an event.
pub enum EventView {
    Frame(Seq<u8>),
    ProbeResult(Option<Seq<char>>),
    ClientClosed,
}

/// The model of an action.
pub enum ActionView {
    ReadFrame,
    ProbeUpstream,
    Reply(Seq<u8>),
    ReplyAndClose(Seq<u8>),
    Handoff(Seq<u8>),
    Close(Option<ConnectionError>),
}

impl ConnectionState {
    pub open spec fn view(&self) -> StateView {
        match self {
            ConnectionState::AwaitingHandshake => StateView::AwaitingHandshake,
            ConnectionState::Status { exchanges } => StateView::Status(*exchanges),
            ConnectionState::AwaitingStatusProbe { exchanges } => StateView::AwaitingStatusProbe(*exchanges),
            ConnectionState::AwaitingLoginStart { handshake } => StateView::AwaitingLoginStart(handshake.deep_view()),
            ConnectionState::Forwarding => StateView::Forwarding,
            ConnectionState::Closed => StateView::Closed,
        }
    }
}

impl ConnectionEvent {
    pub open spec fn view(&self) -> EventView {
        match self {
            ConnectionEvent::Frame(c) => EventView::Frame(c@),
            ConnectionEvent::ProbeResult(r) => EventView::ProbeResult(
                match r {
                    Some(s) => Some(s@),
                    None => None,
                },
            ),
            ConnectionEvent::ClientClosed => EventView::ClientClosed,
        }
    }
}

impl ConnectionAction {
    pub open spec fn view(&self) -> ActionView {
        match self {
            ConnectionAction::ReadFrame => ActionView::ReadFrame,
            ConnectionAction::ProbeUpstream => ActionView::ProbeUpstream,
            ConnectionAction::Reply(b) => ActionView::Reply(b@),
            ConnectionAction::ReplyAndClose(b) => ActionView::ReplyAndClose(b@),
            ConnectionAction::Handoff(b) => ActionView::Handoff(b@),
            ConnectionAction::Close(e) => ActionView::Close(*e),
        }
    }
}

/// The status document sent to a client, given the upstream's answer.
pub open spec fn status_document(config: Config, upstream: Option<Seq<char>>) -> Seq<char> {
    match upstream {
        None => offline_status(config.offline_motd@, config.favicon@),
        Some(doc) => match regex_capture(PLAYERS_PATTERN@, doc, 1) {
            Some(players) => online_status(players, config.motd@, config.favicon@),
            None => offline_status(config.offline_motd@, config.favicon@),
        },
    }
}

/// The state after a status round that ended with a reply of `bytes`, and
/// the action.
pub open spec fn after_status_reply(exchanges: u8, bytes: Seq<u8>) -> (StateView, ActionView) {
    if exchanges + 1 >= MAX_STATUS_EXCHANGES {
        (StateView::Closed, ActionView::ReplyAndClose(bytes))
    } else {
        (StateView::Status((exchanges + 1) as u8), ActionView::Reply(bytes))
    }
}

/// Closing on an error.
pub open spec fn fail(e: ConnectionError) -> (StateView, ActionView) {
    (StateView::Closed, ActionView::Close(Some(e)))
}

/// What a connection does on an event: its next state and the action for
/// its driver.
pub open spec fn next_step(state: StateView, config: Config, event: EventView) -> (StateView, ActionView) {
    match (state, event) {
        (StateView::AwaitingHandshake, EventView::Frame(c)) => match packet_parse::<HandshakePacket>(c) {
            Err(e) => fail(ConnectionError::Read(e)),
            Ok(h) => if h.3 == NextState::Status {
                (StateView::Status(0), ActionView::ReadFrame)
            } else {
                (StateView::AwaitingLoginStart((h.0, config.target_ip@, h.2, h.3)), ActionView::ReadFrame)
            },
        },
        (StateView::Status(k), EventView::Frame(c)) => match varint_parse(c) {
            Err(e) => fail(ConnectionError::Read(e)),
            Ok((id, n)) => if id == 0 {
                match packet_parse::<StatusRequestPacket>(c) {
                    Err(e) => fail(ConnectionError::Read(e)),
                    Ok(_) => (StateView::AwaitingStatusProbe(k), ActionView::ProbeUpstream),
                }
            } else if id == 1 {
                match packet_parse::<PingRequestPacket>(c) {
                    Err(e) => fail(ConnectionError::Read(e)),
                    Ok(payload) => match frame_encode::<PongResponsePacket>(payload) {
                        Err(e) => fail(ConnectionError::Write(e)),
                        Ok(bytes) => (StateView::Closed, ActionView::ReplyAndClose(bytes)),
                    },
                }
            } else if k + 1 >= MAX_STATUS_EXCHANGES {
                (StateView::Closed, ActionView::Close(None))
            } else {
                (StateView::Status((k + 1) as u8), ActionView::ReadFrame)
            },
        },
        (StateView::AwaitingStatusProbe(k), EventView::ProbeResult(r)) =>
            match frame_encode::<StatusResponsePacket>(status_document(config, r)) {
                Err(e) => fail(ConnectionError::Write(e)),
                Ok(bytes) => after_status_reply(k, bytes),
            },
        (StateView::AwaitingLoginStart(h), EventView::Frame(c)) => match packet_parse::<LoginStartPacket>(c) {
            Err(e) => fail(ConnectionError::Read(e)),
            Ok(login) => match frame_encode::<HandshakePacket>(h) {
                Err(e) => fail(ConnectionError::Write(e)),
                Ok(first) => match frame_encode::<LoginStartPacket>(login) {
                    Err(e) => fail(ConnectionError::Write(e)),
                    Ok(second) => (StateView::Forwarding, ActionView::Handoff(first + second)),
                },
            },
        },
        (_, EventView::ClientClosed) => (StateView::Closed, ActionView::Close(None)),
        (StateView::Forwarding, _) => (StateView::Closed, ActionView::Close(None)),
        (StateView::Closed, _) => (StateView::Closed, ActionView::Close(None)),
        _ => fail(ConnectionError::UnexpectedEvent),
    }
}

/// The bytes that ask the upstream server at `target` for its status: a
/// handshake for the status phase, then a status request.
pub fn status_probe_request(target: &str) -> (r: Result<Vec<u8>, MinecraftWriteError>)
    ensures
        match frame_encode::<HandshakePacket>((0i32, target@, UPSTREAM_PORT, NextState::Status)) {
            Err(e) => r == Err::<Vec<u8>, MinecraftWriteError>(e),
            Ok(first) => r is Ok && r->Ok_0@ == first + frame_encode::<StatusRequestPacket>(())->Ok_0,
        },
{
    let handshake = HandshakePacket {
        protocol_version: 0,
        server_address: String::from_str(target),
        server_port: UPSTREAM_PORT,
        next_state: NextState::Status,
    };
    let mut out: Vec<u8> = Vec::new();
    match write_frame(&handshake, &mut out) {
        Err(e) => return Err(e),
        Ok(()) => {},
    }
    let ghost first = out@;
    let request = StatusRequestPacket {};
    let _ = write_frame(&request, &mut out);
    assert(first =~= frame_encode::<HandshakePacket>(handshake.deep_view())->Ok_0);
    assert(out@ =~= first + frame_encode::<StatusRequestPacket>(())->Ok_0);
    Ok(out)
}

/// How far a connection has come: handshake, then status or login, then
/// forwarding, then closed.
pub open spec fn phase(s: StateView) -> nat {
    match s {
        StateView::AwaitingHandshake => 0,
        StateView::Status(_) => 1,
        StateView::AwaitingStatusProbe(_) => 1,
        StateView::AwaitingLoginStart(_) => 1,
        StateView::Forwarding => 2,
        StateView::Closed => 3,
    }
}

/// Whether a state is in the status phase.
pub open spec fn in_status(s: StateView) -> bool {
    s is Status || s is AwaitingStatusProbe
}

/// The status rounds a state in the status phase has counted.
pub open spec fn exchanges_of(s: StateView) -> u8 {
    match s {
        StateView::Status(k) => k,
        StateView::AwaitingStatusProbe(k) => k,
        _ => 0,
    }
}

/// A connection never goes back to an earlier state: its phase never
/// decreases, the status phase never leads to login nor login to status,
/// and the count of status rounds never decreases.
pub proof fn lemma_transitions_append_only(state: StateView, config: Config, event: EventView)
    ensures
        ({
            let next = next_step(state, config, event).0;
            &&& phase(next) >= phase(state)
            &&& in_status(state) ==> !(next is AwaitingLoginStart)
            &&& state is AwaitingLoginStart ==> !in_status(next)
            &&& in_status(state) && in_status(next) ==> exchanges_of(next) >= exchanges_of(state)
        }),
{
}

/// One client connection's protocol logic. Its driver performs each action
/// and reports what came of it as the next event.
#[derive(Debug)]
pub struct Connection {
    pub state: ConnectionState,
}

impl Connection {
    /// A connection waiting for its handshake.
    pub fn new() -> (r: Connection)
        ensures
            r.state.view() == StateView::AwaitingHandshake,
    {
        Connection { state: ConnectionState::AwaitingHandshake }
    }

    /// Takes one event and gives the action to perform.
    pub fn step(&mut self, config: &Config, event: ConnectionEvent) -> (r: ConnectionAction)
        ensures
            (final(self).state.view(), r.view()) == next_step(old(self).state.view(), *config, event.view()),
    {
        let mut state = ConnectionState::Closed;
        std::mem::swap(&mut self.state, &mut state);
        let (next, action) = transition(state, config, event);
        self.state = next;
        action
    }
}

fn close_on_read(e: MinecraftReadError) -> (r: (ConnectionState, ConnectionAction))
    ensures
        (r.0.view(), r.1.view()) == fail(ConnectionError::Read(e)),
{
    (ConnectionState::Closed, ConnectionAction::Close(Some(ConnectionError::Read(e))))
}

fn close_on_write(e: MinecraftWriteError) -> (r: (ConnectionState, ConnectionAction))
    ensures
        (r.0.view(), r.1.view()) == fail(ConnectionError::Write(e)),
{
    (ConnectionState::Closed, ConnectionAction::Close(Some(ConnectionError::Write(e))))
}

fn on_handshake(config: &Config, c: Vec<u8>) -> (r: (ConnectionState, ConnectionAction))
    ensures
        (r.0.view(), r.1.view()) == next_step(StateView::AwaitingHandshake, *config, EventView::Frame(c@)),
{
    match read_packet_contents::<HandshakePacket>(c) {
        Err(e) => close_on_read(e),
        Ok(mut h) => if h.next_state == NextState::Status {
            (ConnectionState::Status { exchanges: 0 }, ConnectionAction::ReadFrame)
        } else {
            h.server_address = config.target_ip.clone();
            (ConnectionState::AwaitingLoginStart { handshake: h }, ConnectionAction::ReadFrame)
        },
    }
}

fn on_status_frame(config: &Config, exchanges: u8, c: Vec<u8>) -> (r: (ConnectionState, ConnectionAction))
    ensures
        (r.0.view(), r.1.view()) == next_step(StateView::Status(exchanges), *config, EventView::Frame(c@)),
{
    let mut cursor = Cursor::new(c.clone());
    assert(cursor.rest() =~= c@);
    let id = match i32::read_var_from(&mut cursor) {
        Ok(id) => id,
        Err(e) => return close_on_read(e),
    };
    if id == 0 {
        match read_packet_contents::<StatusRequestPacket>(c) {
            Err(e) => close_on_read(e),
            Ok(_) => (ConnectionState::AwaitingStatusProbe { exchanges }, ConnectionAction::ProbeUpstream),
        }
    } else if id == 1 {
        match read_packet_contents::<PingRequestPacket>(c) {
            Err(e) => close_on_read(e),
            Ok(ping) => {
                let pong = PongResponsePacket { payload: ping.payload };
                let mut out: Vec<u8> = Vec::new();
                match write_frame(&pong, &mut out) {
                    Err(e) => close_on_write(e),
                    Ok(()) => {
                        assert(out@ =~= frame_encode::<PongResponsePacket>(ping.payload)->Ok_0);
                        (ConnectionState::Closed, ConnectionAction::ReplyAndClose(out))
                    },
                }
            },
        }
    } else if exchanges >= MAX_STATUS_EXCHANGES - 1 {
        (ConnectionState::Closed, ConnectionAction::Close(None))
    } else {
        (ConnectionState::Status { exchanges: exchanges + 1 }, ConnectionAction::ReadFrame)
    }
}

fn on_probe_result(config: &Config, exchanges: u8, r: Option<String>) -> (res: (ConnectionState, ConnectionAction))
    ensures
        (res.0.view(), res.1.view()) == next_step(
            StateView::AwaitingStatusProbe(exchanges),
            *config,
            EventView::ProbeResult(match r { Some(s) => Some(s@), None => None }),
        ),
{
    let doc = match &r {
        Some(s) => status_json(config, Some(s.as_str())),
        None => status_json(config, None),
    };
    let response = StatusResponsePacket { response: doc };
    let mut out: Vec<u8> = Vec::new();
    match write_frame(&response, &mut out) {
        Err(e) => close_on_write(e),
        Ok(()) => {
            assert(out@ =~= frame_encode::<StatusResponsePacket>(response.deep_view())->Ok_0);
            if exchanges >= MAX_STATUS_EXCHANGES - 1 {
                (ConnectionState::Closed, ConnectionAction::ReplyAndClose(out))
            } else {
                (ConnectionState::Status { exchanges: exchanges + 1 }, ConnectionAction::Reply(out))
            }
        },
    }
}

fn on_login_start(config: &Config, handshake: HandshakePacket, c: Vec<u8>) -> (r: (ConnectionState, ConnectionAction))
    ensures
        (r.0.view(), r.1.view()) == next_step(StateView::AwaitingLoginStart(handshake.deep_view()), *config, EventView::Frame(c@)),
{
    match read_packet_contents::<LoginStartPacket>(c) {
        Err(e) => close_on_read(e),
        Ok(login) => {
            let mut out: Vec<u8> = Vec::new();
            match write_frame(&handshake, &mut out) {
                Err(e) => return close_on_write(e),
                Ok(()) => {},
            }
            let ghost first = out@;
            match write_frame(&login, &mut out) {
                Err(e) => return close_on_write(e),
                Ok(()) => {},
            }
            assert(first =~= frame_encode::<HandshakePacket>(handshake.deep_view())->Ok_0);
            assert(out@ =~= first + frame_encode::<LoginStartPacket>(login.deep_view())->Ok_0);
            (ConnectionState::Forwarding, ConnectionAction::Handoff(out))
        },
    }
}

fn transition(state: ConnectionState, config: &Config, event: ConnectionEvent) -> (r: (ConnectionState, ConnectionAction))
    ensures
        (r.0.view(), r.1.view()) == next_step(state.view(), *config, event.view()),
{
    match (state, event) {
        (ConnectionState::AwaitingHandshake, ConnectionEvent::Frame(c)) => on_handshake(config, c),
        (ConnectionState::Status { exchanges }, ConnectionEvent::Frame(c)) => on_status_frame(config, exchanges, c),
        (ConnectionState::AwaitingStatusProbe { exchanges }, ConnectionEvent::ProbeResult(r)) => on_probe_result(config, exchanges, r),
        (ConnectionState::AwaitingLoginStart { handshake }, ConnectionEvent::Frame(c)) => on_login_start(config, handshake, c),
        (_, ConnectionEvent::ClientClosed) => (ConnectionState::Closed, ConnectionAction::Close(None)),
        (ConnectionState::Forwarding, _) => (ConnectionState::Closed, ConnectionAction::Close(None)),
        (ConnectionState::Closed, _) => (ConnectionState::Closed, ConnectionAction::Close(None)),
        _ => (ConnectionState::Closed, ConnectionAction::Close(Some(ConnectionError::UnexpectedEvent))),
    }
}

} // verus!
