use nano_mc::codec::MinecraftWriteableVar;
use nano_mc::connection::{status_probe_request, Connection, ConnectionAction, ConnectionError, ConnectionEvent};
use nano_mc::cursor::Cursor;
use nano_mc::error::MinecraftReadError;
use nano_mc::packets::{HandshakePacket, LoginStartPacket, NextState, PingRequestPacket, PongResponsePacket, StatusRequestPacket, StatusResponsePacket};
use nano_mc::status::{status_json, Config};
use nano_mc::stream::{read_frame, read_packet_contents, MinecraftPacket, MinecraftStreamRead, MinecraftStreamWrite};

const UPSTREAM_STATUS: &str = "{\"version\":{\"name\":\"Paper 1.20.4\",\"protocol\":765},\"players\":{\"max\":20,\"online\":3,\"sample\":[]},\"description\":\"x\"}";

fn config() -> Config {
    let mut c = Config::default();
    c.target_ip = "10.0.0.7".to_string();
    c
}

/// The contents of the frame holding `p` (what its length prefix counts).
fn contents_of<P: MinecraftPacket>(p: &P) -> Vec<u8> {
    let mut frame: Vec<u8> = Vec::new();
    frame.write_packet(p).unwrap();
    let mut c = Cursor::new(frame);
    read_frame(&mut c).unwrap()
}

fn handshake(next_state: NextState) -> HandshakePacket {
    HandshakePacket {
        protocol_version: 765,
        server_address: "localhost".to_string(),
        server_port: 25565,
        next_state,
    }
}

fn status_of(bytes: &[u8]) -> String {
    let mut c = Cursor::new(bytes.to_vec());
    let p: StatusResponsePacket = c.read_packet().unwrap();
    p.response
}

fn pong_of(bytes: &[u8]) -> i64 {
    let mut c = Cursor::new(bytes.to_vec());
    let p: PongResponsePacket = c.read_packet().unwrap();
    p.payload
}

#[test]
fn status_ping_upstream_reachable() {
    let cfg = config();
    let mut conn = Connection::new();
    let a = conn.step(&cfg, ConnectionEvent::Frame(contents_of(&handshake(NextState::Status))));
    assert!(matches!(a, ConnectionAction::ReadFrame));
    let a = conn.step(&cfg, ConnectionEvent::Frame(contents_of(&StatusRequestPacket {})));
    assert!(matches!(a, ConnectionAction::ProbeUpstream));
    let a = conn.step(&cfg, ConnectionEvent::ProbeResult(Some(UPSTREAM_STATUS.to_string())));
    let doc = match a {
        ConnectionAction::Reply(bytes) => status_of(&bytes),
        other => panic!("unexpected action {:?}", other),
    };
    assert!(doc.contains("\"players\":{\"max\":20,\"online\":3,\"sample\":[]}"));
    assert!(doc.contains("\"protocol\": 765"));
    let a = conn.step(&cfg, ConnectionEvent::Frame(contents_of(&PingRequestPacket { payload: 0x0123456789ABCDEF })));
    match a {
        ConnectionAction::ReplyAndClose(bytes) => assert_eq!(pong_of(&bytes), 0x0123456789ABCDEF),
        other => panic!("unexpected action {:?}", other),
    }
}

#[test]
fn status_ping_upstream_unreachable() {
    let cfg = config();
    let mut conn = Connection::new();
    conn.step(&cfg, ConnectionEvent::Frame(contents_of(&handshake(NextState::Status))));
    conn.step(&cfg, ConnectionEvent::Frame(contents_of(&StatusRequestPacket {})));
    let a = conn.step(&cfg, ConnectionEvent::ProbeResult(None));
    let doc = match a {
        ConnectionAction::Reply(bytes) => status_of(&bytes),
        other => panic!("unexpected action {:?}", other),
    };
    assert!(doc.contains("\"protocol\": -1"));
    assert!(doc.contains("\"online\": 0"));
    assert!(doc.contains("\"enforcesSecureChat\": true"));
    let a = conn.step(&cfg, ConnectionEvent::Frame(contents_of(&PingRequestPacket { payload: 5 })));
    match a {
        ConnectionAction::ReplyAndClose(bytes) => assert_eq!(pong_of(&bytes), 5),
        other => panic!("unexpected action {:?}", other),
    }
}

#[test]
fn login_handoff() {
    let cfg = config();
    let mut conn = Connection::new();
    let a = conn.step(&cfg, ConnectionEvent::Frame(contents_of(&handshake(NextState::Login))));
    assert!(matches!(a, ConnectionAction::ReadFrame));
    let login = LoginStartPacket { name: "Alex".to_string(), uuid: 0x00000000000000000000000000000001 };
    let mut login_frame: Vec<u8> = Vec::new();
    login_frame.write_packet(&login).unwrap();
    let a = conn.step(&cfg, ConnectionEvent::Frame(contents_of(&login)));
    let bytes = match a {
        ConnectionAction::Handoff(bytes) => bytes,
        other => panic!("unexpected action {:?}", other),
    };
    let mut c = Cursor::new(bytes.clone());
    let h: HandshakePacket = c.read_packet().unwrap();
    assert_eq!(h.server_address, "10.0.0.7");
    assert_eq!(h.protocol_version, 765);
    assert_eq!(h.server_port, 25565);
    assert_eq!(h.next_state, NextState::Login);
    let rest = &bytes[c.position() as usize..];
    assert_eq!(rest, &login_frame[..]);
    let after = conn.step(&cfg, ConnectionEvent::ClientClosed);
    assert!(matches!(after, ConnectionAction::Close(None)));
}

#[test]
fn forwarding_handoff_bytes_are_verbatim() {
    let cfg = config();
    let mut conn = Connection::new();
    conn.step(&cfg, ConnectionEvent::Frame(contents_of(&handshake(NextState::Login))));
    let login = LoginStartPacket { name: "Alex".to_string(), uuid: 1 };
    let a = conn.step(&cfg, ConnectionEvent::Frame(contents_of(&login)));
    let bytes = match a {
        ConnectionAction::Handoff(bytes) => bytes,
        other => panic!("unexpected action {:?}", other),
    };
    let mut expected: Vec<u8> = Vec::new();
    let mut h = handshake(NextState::Login);
    h.server_address = "10.0.0.7".to_string();
    expected.write_packet(&h).unwrap();
    expected.write_packet(&login).unwrap();
    assert_eq!(bytes, expected);
}

#[test]
fn ping_echo_boundary() {
    let cfg = config();
    let mut conn = Connection::new();
    conn.step(&cfg, ConnectionEvent::Frame(contents_of(&handshake(NextState::Status))));
    let a = conn.step(&cfg, ConnectionEvent::Frame(contents_of(&PingRequestPacket { payload: i64::MIN })));
    match a {
        ConnectionAction::ReplyAndClose(bytes) => {
            assert_eq!(pong_of(&bytes), i64::MIN);
            assert_eq!(bytes, vec![9, 1, 0x80, 0, 0, 0, 0, 0, 0, 0]);
        },
        other => panic!("unexpected action {:?}", other),
    }
}

#[test]
fn malformed_handshake_next_state() {
    let cfg = config();
    let mut conn = Connection::new();
    let mut contents = vec![0x00];
    765i32.write_var_to(&mut contents).unwrap();
    contents.push(9);
    contents.extend_from_slice(b"localhost");
    contents.extend_from_slice(&[0x63, 0xDD]);
    contents.push(3);
    let a = conn.step(&cfg, ConnectionEvent::Frame(contents));
    assert!(matches!(
        a,
        ConnectionAction::Close(Some(ConnectionError::Read(MinecraftReadError::UnexpectedEnumVariant)))
    ));
    let after = conn.step(&cfg, ConnectionEvent::Frame(vec![0]));
    assert!(matches!(after, ConnectionAction::Close(None)));
}

#[test]
fn status_closes_after_two_exchanges() {
    let cfg = config();
    let mut conn = Connection::new();
    conn.step(&cfg, ConnectionEvent::Frame(contents_of(&handshake(NextState::Status))));
    conn.step(&cfg, ConnectionEvent::Frame(contents_of(&StatusRequestPacket {})));
    assert!(matches!(conn.step(&cfg, ConnectionEvent::ProbeResult(None)), ConnectionAction::Reply(_)));
    conn.step(&cfg, ConnectionEvent::Frame(contents_of(&StatusRequestPacket {})));
    assert!(matches!(conn.step(&cfg, ConnectionEvent::ProbeResult(None)), ConnectionAction::ReplyAndClose(_)));
}

#[test]
fn status_tolerates_client_close() {
    let cfg = config();
    let mut conn = Connection::new();
    conn.step(&cfg, ConnectionEvent::Frame(contents_of(&handshake(NextState::Status))));
    conn.step(&cfg, ConnectionEvent::Frame(contents_of(&StatusRequestPacket {})));
    conn.step(&cfg, ConnectionEvent::ProbeResult(None));
    assert!(matches!(conn.step(&cfg, ConnectionEvent::ClientClosed), ConnectionAction::Close(None)));
}

#[test]
fn unexpected_event_closes() {
    let cfg = config();
    let mut conn = Connection::new();
    let a = conn.step(&cfg, ConnectionEvent::ProbeResult(None));
    assert!(matches!(a, ConnectionAction::Close(Some(ConnectionError::UnexpectedEvent))));
}

#[test]
fn wrong_first_packet_id() {
    let cfg = config();
    let mut conn = Connection::new();
    let a = conn.step(&cfg, ConnectionEvent::Frame(contents_of(&PingRequestPacket { payload: 1 })));
    assert!(matches!(
        a,
        ConnectionAction::Close(Some(ConnectionError::Read(MinecraftReadError::PacketIdMismatch { expected: 0, got: 1 })))
    ));
}

#[test]
fn probe_request_bytes() {
    let bytes = status_probe_request("10.0.0.7").unwrap();
    let mut c = Cursor::new(bytes.clone());
    let h: HandshakePacket = c.read_packet().unwrap();
    assert_eq!(h.protocol_version, 0);
    assert_eq!(h.server_address, "10.0.0.7");
    assert_eq!(h.server_port, 25565);
    assert_eq!(h.next_state, NextState::Status);
    let _: StatusRequestPacket = c.read_packet().unwrap();
    assert_eq!(c.position(), bytes.len() as u64);
}

#[test]
fn status_json_splices_players() {
    let cfg = config();
    let doc = status_json(&cfg, Some(UPSTREAM_STATUS));
    assert!(doc.starts_with("{\n    \"version\": {\n        \"name\": \"Paper 1.20.4\""));
    assert!(doc.contains("    \"players\":{\"max\":20,\"online\":3,\"sample\":[]},\n    \"description\": [{\"text\":\"A \""));
    assert!(!doc.contains("\"description\":\"x\""));
}

#[test]
fn status_json_without_players_is_offline() {
    let cfg = config();
    let doc = status_json(&cfg, Some("{\"description\":\"x\"}"));
    assert_eq!(doc, status_json(&cfg, None));
    assert!(doc.contains("\"name\": \"Offline\""));
}

#[test]
fn upstream_status_response_decodes() {
    let mut frame: Vec<u8> = Vec::new();
    frame.write_packet(&StatusResponsePacket { response: UPSTREAM_STATUS.to_string() }).unwrap();
    let mut c = Cursor::new(frame);
    let contents = read_frame(&mut c).unwrap();
    let p = read_packet_contents::<StatusResponsePacket>(contents).unwrap();
    assert_eq!(p.response, UPSTREAM_STATUS);
}

#[test]
fn status_json_players_with_sample_entries() {
    let cfg = config();
    let upstream = "{\"version\":{\"name\":\"1.20.4\",\"protocol\":765},\"players\":{\"max\":5,\"online\":1,\"sample\":[{\"name\":\"Alex\",\"id\":\"0\"}]},\"description\":{\"text\":\"x\"}}";
    let doc = status_json(&cfg, Some(upstream));
    assert!(doc.contains("    \"players\":{\"max\":5,\"online\":1,\"sample\":[{\"name\":\"Alex\",\"id\":\"0\"}]},\n"));
}
