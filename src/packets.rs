use vstd::prelude::*;

use crate::codec::{
    MinecraftCodec, MinecraftCodecVar, MinecraftReadable, MinecraftReadableVar,
    MinecraftWriteable, MinecraftWriteableVar,
};
use crate::cursor::{lemma_skip_front, lemma_skip_skip, Cursor};
use crate::error::{MinecraftReadError, MinecraftWriteError};
use crate::stream::{MinecraftPacket, NetworkStatus, PacketDirection};
use crate::text::{lemma_string_round_trip, read_string, string_encode, string_parse, write_string};
use crate::varint::{varint_parse, varint_wire};

verus! {

broadcast use {lemma_skip_skip, lemma_skip_front};

/// The phase a client asks for in its handshake.
#[derive(Debug, Clone, Copy, PartialEq, Eq, Structural)]
pub enum NextState {
    /// Server-list status, encoded as 1.
    Status,
    /// Login, encoded as 2.
    Login,
}

impl NextState {
    /// The discriminant on the wire.
    pub open spec fn code(self) -> i32 {
        match self {
            NextState::Status => 1,
            NextState::Login => 2,
        }
    }
}

impl Default for NextState {
    fn default() -> (r: NextState)
        ensures
            r == NextState::Status,
    {
        NextState::Status
    }
}

impl DeepView for NextState {
    type V = NextState;

    open spec fn deep_view(&self) -> NextState {
        *self
    }
}

impl MinecraftReadable for NextState {
    /// A VarInt discriminant; any other than 1 and 2 is refused.
    open spec fn parse(b: Seq<u8>) -> Result<(NextState, nat), MinecraftReadError> {
        match varint_parse(b) {
            Err(e) => Err(e),
            Ok((x, n)) => if x == 1 {
                Ok((NextState::Status, n))
            } else if x == 2 {
                Ok((NextState::Login, n))
            } else {
                Err(MinecraftReadError::UnexpectedEnumVariant)
            },
        }
    }

    fn read_from(buffer: &mut Cursor) -> (r: Result<NextState, MinecraftReadError>) {
        match i32::read_var_from(buffer) {
            Ok(1) => Ok(NextState::Status),
            Ok(2) => Ok(NextState::Login),
            Ok(_) => Err(MinecraftReadError::UnexpectedEnumVariant),
            Err(e) => Err(e),
        }
    }
}

impl MinecraftWriteable for NextState {
    open spec fn encode(v: NextState) -> Result<Seq<u8>, MinecraftWriteError> {
        Ok(varint_wire(v.code()))
    }

    fn write_to(&self, buffer: &mut Vec<u8>) -> (r: Result<(), MinecraftWriteError>) {
        let code: i32 = match self {
            NextState::Status => 1,
            NextState::Login => 2,
        };
        code.write_var_to(buffer)
    }
}

impl MinecraftCodec for NextState {
    proof fn lemma_round_trip(v: NextState, rest: Seq<u8>) {
        <i32 as MinecraftCodecVar>::lemma_var_round_trip(v.code(), rest);
    }
}





/// The most UTF-8 bytes of a handshake's server address.
pub const MAX_SERVER_ADDRESS_BYTES: u32 = 255;

/// The most UTF-8 bytes of a player name at login.
pub const MAX_PLAYER_NAME_BYTES: u32 = 16;

/// The first packet of every connection: the client's protocol version, the address and port it dialled, and the phase it asks for.
#[derive(Debug, Clone)]
pub struct HandshakePacket {
    /// Encoded as a VarInt.
    pub protocol_version: i32,
    pub server_address: String,
    pub server_port: u16,
    pub next_state: NextState,
}

impl DeepView for HandshakePacket {
    type V = (i32, Seq<char>, u16, NextState);

    open spec fn deep_view(&self) -> (i32, Seq<char>, u16, NextState) {
        (self.protocol_version, self.server_address@, self.server_port.deep_view(), self.next_state.deep_view())
    }
}

impl MinecraftReadable for HandshakePacket {
    open spec fn parse(b: Seq<u8>) -> Result<((i32, Seq<char>, u16, NextState), nat), MinecraftReadError> {
        match <i32 as MinecraftReadableVar>::parse_var(b) {
            Err(e) => Err(e),
            Ok((x1, n1)) => match string_parse(b.skip(n1 as int), MAX_SERVER_ADDRESS_BYTES) {
                Err(e) => Err(e),
                Ok((x2, n2)) => match <u16 as MinecraftReadable>::parse(b.skip((n1 + n2) as int)) {
                    Err(e) => Err(e),
                    Ok((x3, n3)) => match <NextState as MinecraftReadable>::parse(b.skip((n1 + n2 + n3) as int)) {
                        Err(e) => Err(e),
                        Ok((x4, n4)) => Ok(((x1, x2, x3, x4), n1 + n2 + n3 + n4)),
                    },
                },
            },
        }
    }

    fn read_from(buffer: &mut Cursor) -> (r: Result<HandshakePacket, MinecraftReadError>) {
        let protocol_version = match i32::read_var_from(buffer) {
            Ok(v) => v,
            Err(e) => return Err(e),
        };
        let server_address = match read_string(buffer, MAX_SERVER_ADDRESS_BYTES) {
            Ok(v) => v,
            Err(e) => return Err(e),
        };
        let server_port = match <u16 as MinecraftReadable>::read_from(buffer) {
            Ok(v) => v,
            Err(e) => return Err(e),
        };
        let next_state = match <NextState as MinecraftReadable>::read_from(buffer) {
            Ok(v) => v,
            Err(e) => return Err(e),
        };
        Ok(HandshakePacket { protocol_version, server_address, server_port, next_state })
    }
}

impl MinecraftWriteable for HandshakePacket {
    open spec fn encode(v: (i32, Seq<char>, u16, NextState)) -> Result<Seq<u8>, MinecraftWriteError> {
        match <i32 as MinecraftWriteableVar>::encode_var(v.0) {
            Err(e) => Err(e),
            Ok(x1) => match string_encode(v.1, MAX_SERVER_ADDRESS_BYTES) {
                Err(e) => Err(e),
                Ok(x2) => match <u16 as MinecraftWriteable>::encode(v.2) {
                    Err(e) => Err(e),
                    Ok(x3) => match <NextState as MinecraftWriteable>::encode(v.3) {
                        Err(e) => Err(e),
                        Ok(x4) => Ok(x1 + (x2 + (x3 + x4))),
                    },
                },
            },
        }
    }

    fn write_to(&self, buffer: &mut Vec<u8>) -> (r: Result<(), MinecraftWriteError>) {
        match self.protocol_version.write_var_to(buffer) {
            Ok(()) => {},
            Err(e) => return Err(e),
        }
        match write_string(self.server_address.as_str(), MAX_SERVER_ADDRESS_BYTES, buffer) {
            Ok(()) => {},
            Err(e) => return Err(e),
        }
        match self.server_port.write_to(buffer) {
            Ok(()) => {},
            Err(e) => return Err(e),
        }
        match self.next_state.write_to(buffer) {
            Ok(()) => {},
            Err(e) => return Err(e),
        }
        proof {
            let v = self.deep_view();
            let x1 = <i32 as MinecraftWriteableVar>::encode_var(v.0)->Ok_0;
            let x2 = string_encode(v.1, MAX_SERVER_ADDRESS_BYTES)->Ok_0;
            let x3 = <u16 as MinecraftWriteable>::encode(v.2)->Ok_0;
            let x4 = <NextState as MinecraftWriteable>::encode(v.3)->Ok_0;
            assert(buffer@ =~= old(buffer)@ + x1 + (x2 + (x3 + x4)));
        }
        Ok(())
    }
}

impl MinecraftCodec for HandshakePacket {
    #[verifier::spinoff_prover]
    proof fn lemma_round_trip(v: (i32, Seq<char>, u16, NextState), rest: Seq<u8>) {
        let x1 = <i32 as MinecraftWriteableVar>::encode_var(v.0)->Ok_0;
        let x2 = string_encode(v.1, MAX_SERVER_ADDRESS_BYTES)->Ok_0;
        let x3 = <u16 as MinecraftWriteable>::encode(v.2)->Ok_0;
        let x4 = <NextState as MinecraftWriteable>::encode(v.3)->Ok_0;
        <i32 as MinecraftCodecVar>::lemma_var_round_trip(v.0, x2 + (x3 + (x4 + rest)));
        lemma_string_round_trip(v.1, MAX_SERVER_ADDRESS_BYTES, x3 + (x4 + rest));
        <u16 as MinecraftCodec>::lemma_round_trip(v.2, x4 + rest);
        <NextState as MinecraftCodec>::lemma_round_trip(v.3, rest);
        assert((x1 + (x2 + (x3 + x4))) + rest =~= x1 + (x2 + (x3 + (x4 + rest))));
        assert((x1 + (x2 + (x3 + (x4 + rest)))).skip((x1.len()) as int) == x2 + (x3 + (x4 + rest))) by {
            assert((x1 + (x2 + (x3 + (x4 + rest)))).skip((x1.len()) as int) =~= x2 + (x3 + (x4 + rest)));
        }
        assert((x1 + (x2 + (x3 + (x4 + rest)))).skip((x1.len() + x2.len()) as int) == x3 + (x4 + rest)) by {
            assert((x1 + (x2 + (x3 + (x4 + rest)))).skip((x1.len() + x2.len()) as int) =~= x3 + (x4 + rest));
        }
        assert((x1 + (x2 + (x3 + (x4 + rest)))).skip((x1.len() + x2.len() + x3.len()) as int) == x4 + rest) by {
            assert((x1 + (x2 + (x3 + (x4 + rest)))).skip((x1.len() + x2.len() + x3.len()) as int) =~= x4 + rest);
        }
        assert(<i32 as MinecraftReadableVar>::parse_var((x1 + (x2 + (x3 + (x4 + rest))))) == Ok::<(i32, nat), MinecraftReadError>((v.0, x1.len())));
        assert(string_parse((x1 + (x2 + (x3 + (x4 + rest)))).skip((x1.len()) as int), MAX_SERVER_ADDRESS_BYTES) == Ok::<(Seq<char>, nat), MinecraftReadError>((v.1, x2.len())));
        assert(<u16 as MinecraftReadable>::parse((x1 + (x2 + (x3 + (x4 + rest)))).skip((x1.len() + x2.len()) as int)) == Ok::<(u16, nat), MinecraftReadError>((v.2, x3.len())));
        assert(<NextState as MinecraftReadable>::parse((x1 + (x2 + (x3 + (x4 + rest)))).skip((x1.len() + x2.len() + x3.len()) as int)) == Ok::<(NextState, nat), MinecraftReadError>((v.3, x4.len())));
    }
}

impl MinecraftPacket for HandshakePacket {
    open spec fn id_spec() -> i32 {
        0
    }

    open spec fn direction_spec() -> PacketDirection {
        PacketDirection::Serverbound
    }

    open spec fn status_spec() -> NetworkStatus {
        NetworkStatus::Handshake
    }

    fn get_id() -> (r: i32) {
        0
    }

    fn get_direction() -> (r: PacketDirection) {
        PacketDirection::Serverbound
    }

    fn get_status() -> (r: NetworkStatus) {
        NetworkStatus::Handshake
    }
}

/// A client's request for the server-list status.
#[derive(Debug, Clone, Copy, Default)]
pub struct StatusRequestPacket {
}

impl DeepView for StatusRequestPacket {
    type V = ();

    open spec fn deep_view(&self) -> () {
        ()
    }
}

impl MinecraftReadable for StatusRequestPacket {
    open spec fn parse(b: Seq<u8>) -> Result<((), nat), MinecraftReadError> {
        Ok(((), 0))
    }

    fn read_from(buffer: &mut Cursor) -> (r: Result<StatusRequestPacket, MinecraftReadError>) {
        assert(old(buffer).rest().skip(0) =~= old(buffer).rest());
        Ok(StatusRequestPacket {  })
    }
}

impl MinecraftWriteable for StatusRequestPacket {
    open spec fn encode(v: ()) -> Result<Seq<u8>, MinecraftWriteError> {
        Ok(Seq::empty())
    }

    fn write_to(&self, buffer: &mut Vec<u8>) -> (r: Result<(), MinecraftWriteError>) {
        assert(buffer@ =~= old(buffer)@ + Seq::<u8>::empty());
        Ok(())
    }
}

impl MinecraftCodec for StatusRequestPacket {
    proof fn lemma_round_trip(v: (), rest: Seq<u8>) {
        assert(Seq::<u8>::empty() + rest =~= rest);
    }
}

impl MinecraftPacket for StatusRequestPacket {
    open spec fn id_spec() -> i32 {
        0
    }

    open spec fn direction_spec() -> PacketDirection {
        PacketDirection::Serverbound
    }

    open spec fn status_spec() -> NetworkStatus {
        NetworkStatus::Status
    }

    fn get_id() -> (r: i32) {
        0
    }

    fn get_direction() -> (r: PacketDirection) {
        PacketDirection::Serverbound
    }

    fn get_status() -> (r: NetworkStatus) {
        NetworkStatus::Status
    }
}

/// The server-list status, as a JSON document.
#[derive(Debug, Clone)]
pub struct StatusResponsePacket {
    pub response: String,
}

impl DeepView for StatusResponsePacket {
    type V = Seq<char>;

    open spec fn deep_view(&self) -> Seq<char> {
        self.response.deep_view()
    }
}

impl MinecraftReadable for StatusResponsePacket {
    open spec fn parse(b: Seq<u8>) -> Result<(Seq<char>, nat), MinecraftReadError> {
        match <String as MinecraftReadable>::parse(b) {
            Err(e) => Err(e),
            Ok((x1, n1)) => Ok((x1, n1)),
        }
    }

    fn read_from(buffer: &mut Cursor) -> (r: Result<StatusResponsePacket, MinecraftReadError>) {
        let response = match <String as MinecraftReadable>::read_from(buffer) {
            Ok(v) => v,
            Err(e) => return Err(e),
        };
        Ok(StatusResponsePacket { response })
    }
}

impl MinecraftWriteable for StatusResponsePacket {
    open spec fn encode(v: Seq<char>) -> Result<Seq<u8>, MinecraftWriteError> {
        match <String as MinecraftWriteable>::encode(v) {
            Err(e) => Err(e),
            Ok(x1) => Ok(x1),
        }
    }

    fn write_to(&self, buffer: &mut Vec<u8>) -> (r: Result<(), MinecraftWriteError>) {
        match self.response.write_to(buffer) {
            Ok(()) => {},
            Err(e) => return Err(e),
        }
        proof {
            let v = self.deep_view();
            let x1 = <String as MinecraftWriteable>::encode(v)->Ok_0;
            assert(buffer@ =~= old(buffer)@ + x1);
        }
        Ok(())
    }
}

impl MinecraftCodec for StatusResponsePacket {
    proof fn lemma_round_trip(v: Seq<char>, rest: Seq<u8>) {
        let x1 = <String as MinecraftWriteable>::encode(v)->Ok_0;
        <String as MinecraftCodec>::lemma_round_trip(v, rest);
        assert((x1) + rest =~= x1 + rest);
        assert(<String as MinecraftReadable>::parse((x1 + rest)) == Ok::<(Seq<char>, nat), MinecraftReadError>((v, x1.len())));
    }
}

impl MinecraftPacket for StatusResponsePacket {
    open spec fn id_spec() -> i32 {
        0
    }

    open spec fn direction_spec() -> PacketDirection {
        PacketDirection::Clientbound
    }

    open spec fn status_spec() -> NetworkStatus {
        NetworkStatus::Status
    }

    fn get_id() -> (r: i32) {
        0
    }

    fn get_direction() -> (r: PacketDirection) {
        PacketDirection::Clientbound
    }

    fn get_status() -> (r: NetworkStatus) {
        NetworkStatus::Status
    }
}

/// A client's latency probe.
#[derive(Debug, Clone, Copy, Default)]
pub struct PingRequestPacket {
    pub payload: i64,
}

impl DeepView for PingRequestPacket {
    type V = i64;

    open spec fn deep_view(&self) -> i64 {
        self.payload.deep_view()
    }
}

impl MinecraftReadable for PingRequestPacket {
    open spec fn parse(b: Seq<u8>) -> Result<(i64, nat), MinecraftReadError> {
        match <i64 as MinecraftReadable>::parse(b) {
            Err(e) => Err(e),
            Ok((x1, n1)) => Ok((x1, n1)),
        }
    }

    fn read_from(buffer: &mut Cursor) -> (r: Result<PingRequestPacket, MinecraftReadError>) {
        let payload = match <i64 as MinecraftReadable>::read_from(buffer) {
            Ok(v) => v,
            Err(e) => return Err(e),
        };
        Ok(PingRequestPacket { payload })
    }
}

impl MinecraftWriteable for PingRequestPacket {
    open spec fn encode(v: i64) -> Result<Seq<u8>, MinecraftWriteError> {
        match <i64 as MinecraftWriteable>::encode(v) {
            Err(e) => Err(e),
            Ok(x1) => Ok(x1),
        }
    }

    fn write_to(&self, buffer: &mut Vec<u8>) -> (r: Result<(), MinecraftWriteError>) {
        match self.payload.write_to(buffer) {
            Ok(()) => {},
            Err(e) => return Err(e),
        }
        proof {
            let v = self.deep_view();
            let x1 = <i64 as MinecraftWriteable>::encode(v)->Ok_0;
            assert(buffer@ =~= old(buffer)@ + x1);
        }
        Ok(())
    }
}

impl MinecraftCodec for PingRequestPacket {
    proof fn lemma_round_trip(v: i64, rest: Seq<u8>) {
        let x1 = <i64 as MinecraftWriteable>::encode(v)->Ok_0;
        <i64 as MinecraftCodec>::lemma_round_trip(v, rest);
        assert((x1) + rest =~= x1 + rest);
        assert(<i64 as MinecraftReadable>::parse((x1 + rest)) == Ok::<(i64, nat), MinecraftReadError>((v, x1.len())));
    }
}

impl MinecraftPacket for PingRequestPacket {
    open spec fn id_spec() -> i32 {
        1
    }

    open spec fn direction_spec() -> PacketDirection {
        PacketDirection::Serverbound
    }

    open spec fn status_spec() -> NetworkStatus {
        NetworkStatus::Status
    }

    fn get_id() -> (r: i32) {
        1
    }

    fn get_direction() -> (r: PacketDirection) {
        PacketDirection::Serverbound
    }

    fn get_status() -> (r: NetworkStatus) {
        NetworkStatus::Status
    }
}

/// The answer to a latency probe, echoing its payload.
#[derive(Debug, Clone, Copy, Default)]
pub struct PongResponsePacket {
    pub payload: i64,
}

impl DeepView for PongResponsePacket {
    type V = i64;

    open spec fn deep_view(&self) -> i64 {
        self.payload.deep_view()
    }
}

impl MinecraftReadable for PongResponsePacket {
    open spec fn parse(b: Seq<u8>) -> Result<(i64, nat), MinecraftReadError> {
        match <i64 as MinecraftReadable>::parse(b) {
            Err(e) => Err(e),
            Ok((x1, n1)) => Ok((x1, n1)),
        }
    }

    fn read_from(buffer: &mut Cursor) -> (r: Result<PongResponsePacket, MinecraftReadError>) {
        let payload = match <i64 as MinecraftReadable>::read_from(buffer) {
            Ok(v) => v,
            Err(e) => return Err(e),
        };
        Ok(PongResponsePacket { payload })
    }
}

impl MinecraftWriteable for PongResponsePacket {
    open spec fn encode(v: i64) -> Result<Seq<u8>, MinecraftWriteError> {
        match <i64 as MinecraftWriteable>::encode(v) {
            Err(e) => Err(e),
            Ok(x1) => Ok(x1),
        }
    }

    fn write_to(&self, buffer: &mut Vec<u8>) -> (r: Result<(), MinecraftWriteError>) {
        match self.payload.write_to(buffer) {
            Ok(()) => {},
            Err(e) => return Err(e),
        }
        proof {
            let v = self.deep_view();
            let x1 = <i64 as MinecraftWriteable>::encode(v)->Ok_0;
            assert(buffer@ =~= old(buffer)@ + x1);
        }
        Ok(())
    }
}

impl MinecraftCodec for PongResponsePacket {
    proof fn lemma_round_trip(v: i64, rest: Seq<u8>) {
        let x1 = <i64 as MinecraftWriteable>::encode(v)->Ok_0;
        <i64 as MinecraftCodec>::lemma_round_trip(v, rest);
        assert((x1) + rest =~= x1 + rest);
        assert(<i64 as MinecraftReadable>::parse((x1 + rest)) == Ok::<(i64, nat), MinecraftReadError>((v, x1.len())));
    }
}

impl MinecraftPacket for PongResponsePacket {
    open spec fn id_spec() -> i32 {
        1
    }

    open spec fn direction_spec() -> PacketDirection {
        PacketDirection::Clientbound
    }

    open spec fn status_spec() -> NetworkStatus {
        NetworkStatus::Status
    }

    fn get_id() -> (r: i32) {
        1
    }

    fn get_direction() -> (r: PacketDirection) {
        PacketDirection::Clientbound
    }

    fn get_status() -> (r: NetworkStatus) {
        NetworkStatus::Status
    }
}

/// The first packet of a login: the player's name and UUID.
#[derive(Debug, Clone)]
pub struct LoginStartPacket {
    pub name: String,
    pub uuid: u128,
}

impl DeepView for LoginStartPacket {
    type V = (Seq<char>, u128);

    open spec fn deep_view(&self) -> (Seq<char>, u128) {
        (self.name@, self.uuid.deep_view())
    }
}

impl MinecraftReadable for LoginStartPacket {
    open spec fn parse(b: Seq<u8>) -> Result<((Seq<char>, u128), nat), MinecraftReadError> {
        match string_parse(b, MAX_PLAYER_NAME_BYTES) {
            Err(e) => Err(e),
            Ok((x1, n1)) => match <u128 as MinecraftReadable>::parse(b.skip(n1 as int)) {
                Err(e) => Err(e),
                Ok((x2, n2)) => Ok(((x1, x2), n1 + n2)),
            },
        }
    }

    fn read_from(buffer: &mut Cursor) -> (r: Result<LoginStartPacket, MinecraftReadError>) {
        let name = match read_string(buffer, MAX_PLAYER_NAME_BYTES) {
            Ok(v) => v,
            Err(e) => return Err(e),
        };
        let uuid = match <u128 as MinecraftReadable>::read_from(buffer) {
            Ok(v) => v,
            Err(e) => return Err(e),
        };
        Ok(LoginStartPacket { name, uuid })
    }
}

impl MinecraftWriteable for LoginStartPacket {
    open spec fn encode(v: (Seq<char>, u128)) -> Result<Seq<u8>, MinecraftWriteError> {
        match string_encode(v.0, MAX_PLAYER_NAME_BYTES) {
            Err(e) => Err(e),
            Ok(x1) => match <u128 as MinecraftWriteable>::encode(v.1) {
                Err(e) => Err(e),
                Ok(x2) => Ok(x1 + x2),
            },
        }
    }

    fn write_to(&self, buffer: &mut Vec<u8>) -> (r: Result<(), MinecraftWriteError>) {
        match write_string(self.name.as_str(), MAX_PLAYER_NAME_BYTES, buffer) {
            Ok(()) => {},
            Err(e) => return Err(e),
        }
        match self.uuid.write_to(buffer) {
            Ok(()) => {},
            Err(e) => return Err(e),
        }
        proof {
            let v = self.deep_view();
            let x1 = string_encode(v.0, MAX_PLAYER_NAME_BYTES)->Ok_0;
            let x2 = <u128 as MinecraftWriteable>::encode(v.1)->Ok_0;
            assert(buffer@ =~= old(buffer)@ + x1 + x2);
        }
        Ok(())
    }
}

impl MinecraftCodec for LoginStartPacket {
    proof fn lemma_round_trip(v: (Seq<char>, u128), rest: Seq<u8>) {
        let x1 = string_encode(v.0, MAX_PLAYER_NAME_BYTES)->Ok_0;
        let x2 = <u128 as MinecraftWriteable>::encode(v.1)->Ok_0;
        lemma_string_round_trip(v.0, MAX_PLAYER_NAME_BYTES, x2 + rest);
        <u128 as MinecraftCodec>::lemma_round_trip(v.1, rest);
        assert((x1 + x2) + rest =~= x1 + (x2 + rest));
        assert((x1 + (x2 + rest)).skip((x1.len()) as int) == x2 + rest) by {
            assert((x1 + (x2 + rest)).skip((x1.len()) as int) =~= x2 + rest);
        }
        assert(string_parse((x1 + (x2 + rest)), MAX_PLAYER_NAME_BYTES) == Ok::<(Seq<char>, nat), MinecraftReadError>((v.0, x1.len())));
        assert(<u128 as MinecraftReadable>::parse((x1 + (x2 + rest)).skip((x1.len()) as int)) == Ok::<(u128, nat), MinecraftReadError>((v.1, x2.len())));
    }
}

impl MinecraftPacket for LoginStartPacket {
    open spec fn id_spec() -> i32 {
        0
    }

    open spec fn direction_spec() -> PacketDirection {
        PacketDirection::Serverbound
    }

    open spec fn status_spec() -> NetworkStatus {
        NetworkStatus::Login
    }

    fn get_id() -> (r: i32) {
        0
    }

    fn get_direction() -> (r: PacketDirection) {
        PacketDirection::Serverbound
    }

    fn get_status() -> (r: NetworkStatus) {
        NetworkStatus::Login
    }
}

} // verus!
