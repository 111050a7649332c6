use nano_mc::codec::{MinecraftReadable, MinecraftReadableVar, MinecraftWriteable, MinecraftWriteableVar};
use nano_mc::cursor::Cursor;
use nano_mc::helper::{read_packet, read_type, read_var_type, to_bytes};
use nano_mc::error::{MinecraftReadError, MinecraftWriteError};
use nano_mc::events::{DisconnectEvent, RecievePacketEvent, SendPacketEvent, ServerConnectEvent, UpdateTimeEvent};
use nano_mc::login::{
    DisconnectLoginPacket, EncryptionRequestPacket, EncryptionResponsePacket, LoginPluginRequest,
    LoginPluginResponse, LoginSuccess, LoginSuccessProperty, SetCompression,
};
use nano_mc::packets::{
    HandshakePacket, LoginStartPacket, NextState, PingRequestPacket, PongResponsePacket,
    StatusRequestPacket, StatusResponsePacket,
};
use nano_mc::play::{DisconnectPlayPacket, KeepAliveClientbound, KeepAliveServerbound, UpdateTime};
use nano_mc::stream::{
    read_frame, read_packet_contents, MinecraftPacket, MinecraftStreamRead, MinecraftStreamWrite,
    NetworkStatus, PacketDirection,
};

fn frame_of<P: MinecraftPacket>(p: &P) -> Vec<u8> {
    let mut out: Vec<u8> = Vec::new();
    out.write_packet(p).unwrap();
    out
}

#[test]
fn handshake_wire_bytes() {
    let h = HandshakePacket {
        protocol_version: 765,
        server_address: "localhost".to_string(),
        server_port: 25565,
        next_state: NextState::Status,
    };
    let mut body = Vec::new();
    h.write_to(&mut body).unwrap();
    let mut expected = vec![0xFD, 0x05, 9];
    expected.extend_from_slice(b"localhost");
    expected.extend_from_slice(&[0x63, 0xDD, 0x01]);
    assert_eq!(body, expected);
}

#[test]
fn frame_law_leading_length() {
    let h = HandshakePacket {
        protocol_version: 765,
        server_address: "localhost".to_string(),
        server_port: 25565,
        next_state: NextState::Login,
    };
    let frame = frame_of(&h);
    let mut body = Vec::new();
    h.write_to(&mut body).unwrap();
    assert_eq!(frame[0] as usize, 1 + body.len());
    assert_eq!(frame[1], 0x00);
    assert_eq!(&frame[2..], &body[..]);
    let mut c = Cursor::new(frame.clone());
    let back: HandshakePacket = c.read_packet().unwrap();
    assert_eq!(c.position(), frame.len() as u64);
    assert_eq!(back.protocol_version, 765);
    assert_eq!(back.server_address, "localhost");
    assert_eq!(back.server_port, 25565);
    assert_eq!(back.next_state, NextState::Login);
}

#[test]
fn frame_consumes_exactly_its_length() {
    let mut bytes = frame_of(&PingRequestPacket { payload: 7 });
    bytes.extend_from_slice(&[0xAA, 0xBB]);
    let mut c = Cursor::new(bytes);
    let p: PingRequestPacket = c.read_packet().unwrap();
    assert_eq!(p.payload, 7);
    assert_eq!(c.position(), 10);
}

#[test]
fn frame_id_mismatch() {
    let bytes = frame_of(&PongResponsePacket { payload: 3 });
    let mut c = Cursor::new(bytes);
    let r: Result<StatusResponsePacket, _> = c.read_packet();
    assert_eq!(r.unwrap_err(), MinecraftReadError::PacketIdMismatch { expected: 0, got: 1 });
}

#[test]
fn frame_trailing_bytes() {
    let mut c = Cursor::new(vec![2, 0, 0]);
    let r: Result<StatusRequestPacket, _> = c.read_packet();
    assert_eq!(r.unwrap_err(), MinecraftReadError::TrailingBytes { extra: 1 });
}

#[test]
fn frame_negative_length() {
    let mut bytes = Vec::new();
    (-5i32).write_var_to(&mut bytes).unwrap();
    let mut c = Cursor::new(bytes);
    assert_eq!(read_frame(&mut c), Err(MinecraftReadError::NegativeLength { count: -5 }));
}

#[test]
fn frame_short_supply() {
    let mut c = Cursor::new(vec![5, 0, 1]);
    assert_eq!(read_frame(&mut c), Err(MinecraftReadError::UnexpectedEof));
}

#[test]
fn string_frame_short_supply_fails() {
    let mut contents = vec![0x00];
    32767i32.write_var_to(&mut contents).unwrap();
    contents.extend(std::iter::repeat(b'x').take(32766));
    let r = read_packet_contents::<StatusResponsePacket>(contents);
    assert_eq!(r.unwrap_err(), MinecraftReadError::UnexpectedEof);
}

#[test]
fn next_state_encoding() {
    let mut out = Vec::new();
    NextState::Status.write_to(&mut out).unwrap();
    NextState::Login.write_to(&mut out).unwrap();
    assert_eq!(out, vec![1, 2]);
    assert_eq!(NextState::default(), NextState::Status);
    for bad in [0u8, 3] {
        let mut c = Cursor::new(vec![bad]);
        assert_eq!(NextState::read_from(&mut c), Err(MinecraftReadError::UnexpectedEnumVariant));
    }
}

#[test]
fn handshake_address_limit() {
    let h = HandshakePacket {
        protocol_version: 0,
        server_address: "a".repeat(256),
        server_port: 1,
        next_state: NextState::Status,
    };
    let mut out = Vec::new();
    assert_eq!(
        out.write_packet(&h),
        Err(MinecraftWriteError::StringTooLong { length: 256, max_length: 255 })
    );
    assert!(out.is_empty());
}

#[test]
fn login_start_round_trip() {
    let p = LoginStartPacket { name: "Alex".to_string(), uuid: 1 };
    let frame = frame_of(&p);
    let mut expected = vec![22, 0, 4, b'A', b'l', b'e', b'x'];
    expected.extend_from_slice(&[0; 15]);
    expected.push(1);
    assert_eq!(frame, expected);
    let mut c = Cursor::new(frame);
    let back: LoginStartPacket = c.read_packet().unwrap();
    assert_eq!(back.name, "Alex");
    assert_eq!(back.uuid, 1);
}

#[test]
fn status_packets_round_trip() {
    assert_eq!(frame_of(&StatusRequestPacket {}), vec![1, 0]);
    let resp = StatusResponsePacket { response: "{}".to_string() };
    assert_eq!(frame_of(&resp), vec![4, 0, 2, b'{', b'}']);
    let ping = PingRequestPacket { payload: i64::MIN };
    let frame = frame_of(&ping);
    assert_eq!(frame, vec![9, 1, 0x80, 0, 0, 0, 0, 0, 0, 0]);
    let mut c = Cursor::new(frame);
    let back: PingRequestPacket = c.read_packet().unwrap();
    assert_eq!(back.payload, i64::MIN);
}

#[test]
fn packet_metadata() {
    assert_eq!(HandshakePacket::get_id(), 0);
    assert_eq!(HandshakePacket::get_direction(), PacketDirection::Serverbound);
    assert_eq!(HandshakePacket::get_status(), NetworkStatus::Handshake);
    assert_eq!(PongResponsePacket::get_id(), 1);
    assert_eq!(PongResponsePacket::get_direction(), PacketDirection::Clientbound);
    assert_eq!(StatusResponsePacket::get_status(), NetworkStatus::Status);
    assert_eq!(LoginStartPacket::get_status(), NetworkStatus::Login);
    assert_eq!(UpdateTime::get_id(), 94);
    assert_eq!(KeepAliveServerbound::get_id(), 18);
    assert_eq!(KeepAliveClientbound::get_id(), 35);
    assert_eq!(DisconnectPlayPacket::get_id(), 26);
    assert_eq!(UpdateTime::get_status(), NetworkStatus::Play);
    assert_eq!(SetCompression::get_id(), 3);
    assert_eq!(LoginPluginRequest::get_id(), 4);
}

#[test]
fn login_success_round_trip() {
    let p = LoginSuccess {
        uuid: 42,
        username: "Steve".to_string(),
        properties: vec![
            LoginSuccessProperty { name: "textures".to_string(), value: "abc".to_string(), signature: None },
            LoginSuccessProperty { name: "x".to_string(), value: "y".to_string(), signature: Some("sig".to_string()) },
        ],
    };
    let mut c = Cursor::new(frame_of(&p));
    let back: LoginSuccess = c.read_packet().unwrap();
    assert_eq!(back.uuid, 42);
    assert_eq!(back.username, "Steve");
    assert_eq!(back.properties.len(), 2);
    assert_eq!(back.properties[0].name, "textures");
    assert_eq!(back.properties[0].signature, None);
    assert_eq!(back.properties[1].signature, Some("sig".to_string()));
}

#[test]
fn login_packets_round_trip() {
    let mut c = Cursor::new(frame_of(&EncryptionRequestPacket {
        server_id: String::new(),
        public_key: vec![1, 2, 3],
        verify_token: vec![9],
    }));
    let r: EncryptionRequestPacket = c.read_packet().unwrap();
    assert_eq!(r.public_key, vec![1, 2, 3]);
    assert_eq!(r.verify_token, vec![9]);

    let frame = frame_of(&EncryptionResponsePacket { shared_secret: vec![5; 4], verify_token: vec![] });
    assert_eq!(frame, vec![7, 1, 4, 5, 5, 5, 5, 0]);

    let frame = frame_of(&LoginPluginResponse { message_id: 300, data: Some(vec![7]) });
    assert_eq!(frame, vec![6, 2, 0xAC, 0x02, 1, 1, 7]);
    let mut c = Cursor::new(frame);
    let r: LoginPluginResponse = c.read_packet().unwrap();
    assert_eq!(r.message_id, 300);
    assert_eq!(r.data, Some(vec![7]));

    let frame = frame_of(&SetCompression { threshold: 256 });
    assert_eq!(frame, vec![3, 3, 0x80, 0x02]);

    let mut c = Cursor::new(frame_of(&LoginPluginRequest {
        message_id: -1,
        channel: "minecraft:brand".to_string(),
        data: vec![0, 1],
    }));
    let r: LoginPluginRequest = c.read_packet().unwrap();
    assert_eq!(r.message_id, -1);
    assert_eq!(r.channel, "minecraft:brand");
    assert_eq!(r.data, vec![0, 1]);

    let mut c = Cursor::new(frame_of(&DisconnectLoginPacket { reason: "\"bye\"".to_string() }));
    let r: DisconnectLoginPacket = c.read_packet().unwrap();
    assert_eq!(r.reason, "\"bye\"");
}

#[test]
fn play_packets_round_trip() {
    let frame = frame_of(&UpdateTime { world_age: 1, time: -1 });
    assert_eq!(frame.len(), 1 + 1 + 16);
    assert_eq!(frame[1], 94);
    let mut c = Cursor::new(frame);
    let t: UpdateTime = c.read_packet().unwrap();
    assert_eq!((t.world_age, t.time), (1, -1));

    let mut c = Cursor::new(frame_of(&KeepAliveClientbound { id: 123456789 }));
    let k: KeepAliveClientbound = c.read_packet().unwrap();
    assert_eq!(k.id, 123456789);
    let mut c = Cursor::new(frame_of(&KeepAliveServerbound { id: -5 }));
    let k: KeepAliveServerbound = c.read_packet().unwrap();
    assert_eq!(k.id, -5);
    let mut c = Cursor::new(frame_of(&DisconnectPlayPacket { reason: "kicked".to_string() }));
    let d: DisconnectPlayPacket = c.read_packet().unwrap();
    assert_eq!(d.reason, "kicked");
}

#[test]
fn events_hold_their_fields() {
    let e = ServerConnectEvent { ip: "127.0.0.1:25565".to_string(), username: "Alex".to_string() };
    assert_eq!(e.ip, "127.0.0.1:25565");
    let d = DisconnectEvent { reason: "bye".to_string() };
    assert_eq!(d.reason, "bye");
    let t = UpdateTimeEvent { world_age: 24000, time: 6000 };
    assert_eq!(t, UpdateTimeEvent { world_age: 24000, time: 6000 });
}

#[test]
fn helper_functions() {
    let frame = to_bytes(&PongResponsePacket { payload: -2 }).unwrap();
    assert_eq!(frame, vec![9, 1, 0xFF, 0xFF, 0xFF, 0xFF, 0xFF, 0xFF, 0xFF, 0xFE]);
    let mut contents = Cursor::new(frame[1..].to_vec());
    contents.set_position(4);
    let p: PongResponsePacket = read_packet(&mut contents).unwrap();
    assert_eq!(p.payload, -2);
    let mut c = Cursor::new(vec![0xAC, 0x02, 0x00, 0x07]);
    let v: i32 = read_var_type(&mut c).unwrap();
    assert_eq!(v, 300);
    let w: u16 = read_type(&mut c).unwrap();
    assert_eq!(w, 7);
}

#[test]
fn decode_then_encode_gives_bytes_back() {
    let frames: Vec<Vec<u8>> = vec![
        vec![0x00],
        vec![0x7F],
        vec![0xFF, 0x01],
        vec![0x80, 0x80, 0x80, 0x80, 0x08],
        vec![0xFF, 0xFF, 0xFF, 0xFF, 0x0F],
    ];
    for bytes in frames {
        let mut c = Cursor::new(bytes.clone());
        let v = i32::read_var_from(&mut c).unwrap();
        let mut out = Vec::new();
        v.write_var_to(&mut out).unwrap();
        assert_eq!(out, bytes);
    }
    let mut body = Vec::new();
    LoginStartPacket { name: "Alex".to_string(), uuid: 1 }.write_to(&mut body).unwrap();
    let mut c = Cursor::new(body.clone());
    let p = LoginStartPacket::read_from(&mut c).unwrap();
    let mut again = Vec::new();
    p.write_to(&mut again).unwrap();
    assert_eq!(again, body);
}

#[test]
fn non_canonical_bytes_reencode_canonically() {
    let mut c = Cursor::new(vec![0x81, 0x00]);
    let v = i32::read_var_from(&mut c).unwrap();
    assert_eq!(v, 1);
    let mut out = Vec::new();
    v.write_var_to(&mut out).unwrap();
    assert_eq!(out, vec![0x01]);
    let mut c = Cursor::new(vec![0x05]);
    assert_eq!(bool::read_from(&mut c), Ok(true));
}

#[test]
fn packet_events_carry_contents() {
    let frame = to_bytes(&KeepAliveClientbound { id: 9 }).unwrap();
    let mut received = RecievePacketEvent { id: 35, packet: Cursor::new(frame[1..].to_vec()) };
    let k: KeepAliveClientbound = read_packet(&mut received.packet).unwrap();
    assert_eq!(k.id, 9);
    assert_eq!(received.id, KeepAliveClientbound::get_id());
    let send = SendPacketEvent { packet: Cursor::new(frame.clone()) };
    assert_eq!(send.packet.into_inner(), frame);
}
