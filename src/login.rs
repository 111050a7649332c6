use vstd::prelude::*;

use crate::codec::{
    MinecraftCodec, MinecraftCodecVar, MinecraftReadable, MinecraftReadableVar,
    MinecraftWriteable, MinecraftWriteableVar,
};
use crate::cursor::{lemma_skip_front, lemma_skip_skip, Cursor};
use crate::error::{MinecraftReadError, MinecraftWriteError};
use crate::stream::{MinecraftPacket, NetworkStatus, PacketDirection};

verus! {

broadcast use {lemma_skip_skip, lemma_skip_front};


/// The server's reason for ending a login, as a JSON text component.
#[derive(Debug, Clone)]
pub struct DisconnectLoginPacket {
    pub reason: String,
}

impl DeepView for DisconnectLoginPacket {
    type V = Seq<char>;

    open spec fn deep_view(&self) -> Seq<char> {
        self.reason.deep_view()
    }
}

impl MinecraftReadable for DisconnectLoginPacket {
    open spec fn parse(b: Seq<u8>) -> Result<(Seq<char>, nat), MinecraftReadError> {
        match <String as MinecraftReadable>::parse(b) {
            Err(e) => Err(e),
            Ok((x1, n1)) => Ok((x1, n1)),
        }
    }

    fn read_from(buffer: &mut Cursor) -> (r: Result<DisconnectLoginPacket, MinecraftReadError>) {
        let reason = match <String as MinecraftReadable>::read_from(buffer) {
            Ok(v) => v,
            Err(e) => return Err(e),
        };
        Ok(DisconnectLoginPacket { reason })
    }
}

impl MinecraftWriteable for DisconnectLoginPacket {
    open spec fn encode(v: Seq<char>) -> Result<Seq<u8>, MinecraftWriteError> {
        match <String as MinecraftWriteable>::encode(v) {
            Err(e) => Err(e),
            Ok(x1) => Ok(x1),
        }
    }

    fn write_to(&self, buffer: &mut Vec<u8>) -> (r: Result<(), MinecraftWriteError>) {
        match self.reason.write_to(buffer) {
            Ok(()) => {},
            Err(e) => return Err(e),
        }
        proof {
            let v = self.deep_view();
            let x1 = <String as MinecraftWriteable>::encode(v)->Ok_0;
            assert(buffer@ =~= old(buffer)@ + x1);
        }
        Ok(())
    }
}

impl MinecraftCodec for DisconnectLoginPacket {
    proof fn lemma_round_trip(v: Seq<char>, rest: Seq<u8>) {
        let x1 = <String as MinecraftWriteable>::encode(v)->Ok_0;
        <String as MinecraftCodec>::lemma_round_trip(v, rest);
        assert((x1) + rest =~= x1 + rest);
        assert(<String as MinecraftReadable>::parse((x1 + rest)) == Ok::<(Seq<char>, nat), MinecraftReadError>((v, x1.len())));
    }
}

impl MinecraftPacket for DisconnectLoginPacket {
    open spec fn id_spec() -> i32 {
        0
    }

    open spec fn direction_spec() -> PacketDirection {
        PacketDirection::Clientbound
    }

    open spec fn status_spec() -> NetworkStatus {
        NetworkStatus::Login
    }

    fn get_id() -> (r: i32) {
        0
    }

    fn get_direction() -> (r: PacketDirection) {
        PacketDirection::Clientbound
    }

    fn get_status() -> (r: NetworkStatus) {
        NetworkStatus::Login
    }
}

/// The server's request to turn on encryption.
#[derive(Debug, Clone)]
pub struct EncryptionRequestPacket {
    pub server_id: String,
    pub public_key: Vec<u8>,
    pub verify_token: Vec<u8>,
}

impl DeepView for EncryptionRequestPacket {
    type V = (Seq<char>, Seq<u8>, Seq<u8>);

    open spec fn deep_view(&self) -> (Seq<char>, Seq<u8>, Seq<u8>) {
        (self.server_id.deep_view(), self.public_key.deep_view(), self.verify_token.deep_view())
    }
}

impl MinecraftReadable for EncryptionRequestPacket {
    open spec fn parse(b: Seq<u8>) -> Result<((Seq<char>, Seq<u8>, Seq<u8>), nat), MinecraftReadError> {
        match <String as MinecraftReadable>::parse(b) {
            Err(e) => Err(e),
            Ok((x1, n1)) => match <Vec<u8> as MinecraftReadable>::parse(b.skip(n1 as int)) {
                Err(e) => Err(e),
                Ok((x2, n2)) => match <Vec<u8> as MinecraftReadable>::parse(b.skip((n1 + n2) as int)) {
                    Err(e) => Err(e),
                    Ok((x3, n3)) => Ok(((x1, x2, x3), n1 + n2 + n3)),
                },
            },
        }
    }

    fn read_from(buffer: &mut Cursor) -> (r: Result<EncryptionRequestPacket, MinecraftReadError>) {
        let server_id = match <String as MinecraftReadable>::read_from(buffer) {
            Ok(v) => v,
            Err(e) => return Err(e),
        };
        let public_key = match <Vec<u8> as MinecraftReadable>::read_from(buffer) {
            Ok(v) => v,
            Err(e) => return Err(e),
        };
        let verify_token = match <Vec<u8> as MinecraftReadable>::read_from(buffer) {
            Ok(v) => v,
            Err(e) => return Err(e),
        };
        Ok(EncryptionRequestPacket { server_id, public_key, verify_token })
    }
}

impl MinecraftWriteable for EncryptionRequestPacket {
    open spec fn encode(v: (Seq<char>, Seq<u8>, Seq<u8>)) -> Result<Seq<u8>, MinecraftWriteError> {
        match <String as MinecraftWriteable>::encode(v.0) {
            Err(e) => Err(e),
            Ok(x1) => match <Vec<u8> as MinecraftWriteable>::encode(v.1) {
                Err(e) => Err(e),
                Ok(x2) => match <Vec<u8> as MinecraftWriteable>::encode(v.2) {
                    Err(e) => Err(e),
                    Ok(x3) => Ok(x1 + (x2 + x3)),
                },
            },
        }
    }

    fn write_to(&self, buffer: &mut Vec<u8>) -> (r: Result<(), MinecraftWriteError>) {
        match self.server_id.write_to(buffer) {
            Ok(()) => {},
            Err(e) => return Err(e),
        }
        match self.public_key.write_to(buffer) {
            Ok(()) => {},
            Err(e) => return Err(e),
        }
        match self.verify_token.write_to(buffer) {
            Ok(()) => {},
            Err(e) => return Err(e),
        }
        proof {
            let v = self.deep_view();
            let x1 = <String as MinecraftWriteable>::encode(v.0)->Ok_0;
            let x2 = <Vec<u8> as MinecraftWriteable>::encode(v.1)->Ok_0;
            let x3 = <Vec<u8> as MinecraftWriteable>::encode(v.2)->Ok_0;
            assert(buffer@ =~= old(buffer)@ + x1 + (x2 + x3));
        }
        Ok(())
    }
}

impl MinecraftCodec for EncryptionRequestPacket {
    #[verifier::spinoff_prover]
    proof fn lemma_round_trip(v: (Seq<char>, Seq<u8>, Seq<u8>), rest: Seq<u8>) {
        let x1 = <String as MinecraftWriteable>::encode(v.0)->Ok_0;
        let x2 = <Vec<u8> as MinecraftWriteable>::encode(v.1)->Ok_0;
        let x3 = <Vec<u8> as MinecraftWriteable>::encode(v.2)->Ok_0;
        <String as MinecraftCodec>::lemma_round_trip(v.0, x2 + (x3 + rest));
        <Vec<u8> as MinecraftCodec>::lemma_round_trip(v.1, x3 + rest);
        <Vec<u8> as MinecraftCodec>::lemma_round_trip(v.2, rest);
        assert((x1 + (x2 + x3)) + rest =~= x1 + (x2 + (x3 + rest)));
        assert((x1 + (x2 + (x3 + rest))).skip((x1.len()) as int) == x2 + (x3 + rest)) by {
            assert((x1 + (x2 + (x3 + rest))).skip((x1.len()) as int) =~= x2 + (x3 + rest));
        }
        assert((x1 + (x2 + (x3 + rest))).skip((x1.len() + x2.len()) as int) == x3 + rest) by {
            assert((x1 + (x2 + (x3 + rest))).skip((x1.len() + x2.len()) as int) =~= x3 + rest);
        }
        assert(<String as MinecraftReadable>::parse((x1 + (x2 + (x3 + rest)))) == Ok::<(Seq<char>, nat), MinecraftReadError>((v.0, x1.len())));
        assert(<Vec<u8> as MinecraftReadable>::parse((x1 + (x2 + (x3 + rest))).skip((x1.len()) as int)) == Ok::<(Seq<u8>, nat), MinecraftReadError>((v.1, x2.len())));
        assert(<Vec<u8> as MinecraftReadable>::parse((x1 + (x2 + (x3 + rest))).skip((x1.len() + x2.len()) as int)) == Ok::<(Seq<u8>, nat), MinecraftReadError>((v.2, x3.len())));
    }
}

impl MinecraftPacket for EncryptionRequestPacket {
    open spec fn id_spec() -> i32 {
        1
    }

    open spec fn direction_spec() -> PacketDirection {
        PacketDirection::Clientbound
    }

    open spec fn status_spec() -> NetworkStatus {
        NetworkStatus::Login
    }

    fn get_id() -> (r: i32) {
        1
    }

    fn get_direction() -> (r: PacketDirection) {
        PacketDirection::Clientbound
    }

    fn get_status() -> (r: NetworkStatus) {
        NetworkStatus::Login
    }
}

/// The client's answer to an encryption request.
#[derive(Debug, Clone)]
pub struct EncryptionResponsePacket {
    pub shared_secret: Vec<u8>,
    pub verify_token: Vec<u8>,
}

impl DeepView for EncryptionResponsePacket {
    type V = (Seq<u8>, Seq<u8>);

    open spec fn deep_view(&self) -> (Seq<u8>, Seq<u8>) {
        (self.shared_secret.deep_view(), self.verify_token.deep_view())
    }
}

impl MinecraftReadable for EncryptionResponsePacket {
    open spec fn parse(b: Seq<u8>) -> Result<((Seq<u8>, Seq<u8>), nat), MinecraftReadError> {
        match <Vec<u8> as MinecraftReadable>::parse(b) {
            Err(e) => Err(e),
            Ok((x1, n1)) => match <Vec<u8> as MinecraftReadable>::parse(b.skip(n1 as int)) {
                Err(e) => Err(e),
                Ok((x2, n2)) => Ok(((x1, x2), n1 + n2)),
            },
        }
    }

    fn read_from(buffer: &mut Cursor) -> (r: Result<EncryptionResponsePacket, MinecraftReadError>) {
        let shared_secret = match <Vec<u8> as MinecraftReadable>::read_from(buffer) {
            Ok(v) => v,
            Err(e) => return Err(e),
        };
        let verify_token = match <Vec<u8> as MinecraftReadable>::read_from(buffer) {
            Ok(v) => v,
            Err(e) => return Err(e),
        };
        Ok(EncryptionResponsePacket { shared_secret, verify_token })
    }
}

impl MinecraftWriteable for EncryptionResponsePacket {
    open spec fn encode(v: (Seq<u8>, Seq<u8>)) -> Result<Seq<u8>, MinecraftWriteError> {
        match <Vec<u8> as MinecraftWriteable>::encode(v.0) {
            Err(e) => Err(e),
            Ok(x1) => match <Vec<u8> as MinecraftWriteable>::encode(v.1) {
                Err(e) => Err(e),
                Ok(x2) => Ok(x1 + x2),
            },
        }
    }

    fn write_to(&self, buffer: &mut Vec<u8>) -> (r: Result<(), MinecraftWriteError>) {
        match self.shared_secret.write_to(buffer) {
            Ok(()) => {},
            Err(e) => return Err(e),
        }
        match self.verify_token.write_to(buffer) {
            Ok(()) => {},
            Err(e) => return Err(e),
        }
        proof {
            let v = self.deep_view();
            let x1 = <Vec<u8> as MinecraftWriteable>::encode(v.0)->Ok_0;
            let x2 = <Vec<u8> as MinecraftWriteable>::encode(v.1)->Ok_0;
            assert(buffer@ =~= old(buffer)@ + x1 + x2);
        }
        Ok(())
    }
}

impl MinecraftCodec for EncryptionResponsePacket {
    proof fn lemma_round_trip(v: (Seq<u8>, Seq<u8>), rest: Seq<u8>) {
        let x1 = <Vec<u8> as MinecraftWriteable>::encode(v.0)->Ok_0;
        let x2 = <Vec<u8> as MinecraftWriteable>::encode(v.1)->Ok_0;
        <Vec<u8> as MinecraftCodec>::lemma_round_trip(v.0, x2 + rest);
        <Vec<u8> as MinecraftCodec>::lemma_round_trip(v.1, rest);
        assert((x1 + x2) + rest =~= x1 + (x2 + rest));
        assert((x1 + (x2 + rest)).skip((x1.len()) as int) == x2 + rest) by {
            assert((x1 + (x2 + rest)).skip((x1.len()) as int) =~= x2 + rest);
        }
        assert(<Vec<u8> as MinecraftReadable>::parse((x1 + (x2 + rest))) == Ok::<(Seq<u8>, nat), MinecraftReadError>((v.0, x1.len())));
        assert(<Vec<u8> as MinecraftReadable>::parse((x1 + (x2 + rest)).skip((x1.len()) as int)) == Ok::<(Seq<u8>, nat), MinecraftReadError>((v.1, x2.len())));
    }
}

impl MinecraftPacket for EncryptionResponsePacket {
    open spec fn id_spec() -> i32 {
        1
    }

    open spec fn direction_spec() -> PacketDirection {
        PacketDirection::Serverbound
    }

    open spec fn status_spec() -> NetworkStatus {
        NetworkStatus::Login
    }

    fn get_id() -> (r: i32) {
        1
    }

    fn get_direction() -> (r: PacketDirection) {
        PacketDirection::Serverbound
    }

    fn get_status() -> (r: NetworkStatus) {
        NetworkStatus::Login
    }
}

/// The client's answer to a plugin message during login.
#[derive(Debug, Clone)]
pub struct LoginPluginResponse {
    /// Encoded as a VarInt.
    pub message_id: i32,
    pub data: Option<Vec<u8>>,
}

impl DeepView for LoginPluginResponse {
    type V = (i32, Option<Seq<u8>>);

    open spec fn deep_view(&self) -> (i32, Option<Seq<u8>>) {
        (self.message_id, self.data.deep_view())
    }
}

impl MinecraftReadable for LoginPluginResponse {
    open spec fn parse(b: Seq<u8>) -> Result<((i32, Option<Seq<u8>>), nat), MinecraftReadError> {
        match <i32 as MinecraftReadableVar>::parse_var(b) {
            Err(e) => Err(e),
            Ok((x1, n1)) => match <Option<Vec<u8>> as MinecraftReadable>::parse(b.skip(n1 as int)) {
                Err(e) => Err(e),
                Ok((x2, n2)) => Ok(((x1, x2), n1 + n2)),
            },
        }
    }

    fn read_from(buffer: &mut Cursor) -> (r: Result<LoginPluginResponse, MinecraftReadError>) {
        let message_id = match i32::read_var_from(buffer) {
            Ok(v) => v,
            Err(e) => return Err(e),
        };
        let data = match <Option<Vec<u8>> as MinecraftReadable>::read_from(buffer) {
            Ok(v) => v,
            Err(e) => return Err(e),
        };
        Ok(LoginPluginResponse { message_id, data })
    }
}

impl MinecraftWriteable for LoginPluginResponse {
    open spec fn encode(v: (i32, Option<Seq<u8>>)) -> Result<Seq<u8>, MinecraftWriteError> {
        match <i32 as MinecraftWriteableVar>::encode_var(v.0) {
            Err(e) => Err(e),
            Ok(x1) => match <Option<Vec<u8>> as MinecraftWriteable>::encode(v.1) {
                Err(e) => Err(e),
                Ok(x2) => Ok(x1 + x2),
            },
        }
    }

    fn write_to(&self, buffer: &mut Vec<u8>) -> (r: Result<(), MinecraftWriteError>) {
        match self.message_id.write_var_to(buffer) {
            Ok(()) => {},
            Err(e) => return Err(e),
        }
        match self.data.write_to(buffer) {
            Ok(()) => {},
            Err(e) => return Err(e),
        }
        proof {
            let v = self.deep_view();
            let x1 = <i32 as MinecraftWriteableVar>::encode_var(v.0)->Ok_0;
            let x2 = <Option<Vec<u8>> as MinecraftWriteable>::encode(v.1)->Ok_0;
            assert(buffer@ =~= old(buffer)@ + x1 + x2);
        }
        Ok(())
    }
}

impl MinecraftCodec for LoginPluginResponse {
    proof fn lemma_round_trip(v: (i32, Option<Seq<u8>>), rest: Seq<u8>) {
        let x1 = <i32 as MinecraftWriteableVar>::encode_var(v.0)->Ok_0;
        let x2 = <Option<Vec<u8>> as MinecraftWriteable>::encode(v.1)->Ok_0;
        <i32 as MinecraftCodecVar>::lemma_var_round_trip(v.0, x2 + rest);
        <Option<Vec<u8>> as MinecraftCodec>::lemma_round_trip(v.1, rest);
        assert((x1 + x2) + rest =~= x1 + (x2 + rest));
        assert((x1 + (x2 + rest)).skip((x1.len()) as int) == x2 + rest) by {
            assert((x1 + (x2 + rest)).skip((x1.len()) as int) =~= x2 + rest);
        }
        assert(<i32 as MinecraftReadableVar>::parse_var((x1 + (x2 + rest))) == Ok::<(i32, nat), MinecraftReadError>((v.0, x1.len())));
        assert(<Option<Vec<u8>> as MinecraftReadable>::parse((x1 + (x2 + rest)).skip((x1.len()) as int)) == Ok::<(Option<Seq<u8>>, nat), MinecraftReadError>((v.1, x2.len())));
    }
}

impl MinecraftPacket for LoginPluginResponse {
    open spec fn id_spec() -> i32 {
        2
    }

    open spec fn direction_spec() -> PacketDirection {
        PacketDirection::Serverbound
    }

    open spec fn status_spec() -> NetworkStatus {
        NetworkStatus::Login
    }

    fn get_id() -> (r: i32) {
        2
    }

    fn get_direction() -> (r: PacketDirection) {
        PacketDirection::Serverbound
    }

    fn get_status() -> (r: NetworkStatus) {
        NetworkStatus::Login
    }
}

/// One property of a player's profile.
#[derive(Debug, Clone)]
pub struct LoginSuccessProperty {
    pub name: String,
    pub value: String,
    pub signature: Option<String>,
}

impl DeepView for LoginSuccessProperty {
    type V = (Seq<char>, Seq<char>, Option<Seq<char>>);

    open spec fn deep_view(&self) -> (Seq<char>, Seq<char>, Option<Seq<char>>) {
        (self.name.deep_view(), self.value.deep_view(), self.signature.deep_view())
    }
}

impl MinecraftReadable for LoginSuccessProperty {
    open spec fn parse(b: Seq<u8>) -> Result<((Seq<char>, Seq<char>, Option<Seq<char>>), nat), MinecraftReadError> {
        match <String as MinecraftReadable>::parse(b) {
            Err(e) => Err(e),
            Ok((x1, n1)) => match <String as MinecraftReadable>::parse(b.skip(n1 as int)) {
                Err(e) => Err(e),
                Ok((x2, n2)) => match <Option<String> as MinecraftReadable>::parse(b.skip((n1 + n2) as int)) {
                    Err(e) => Err(e),
                    Ok((x3, n3)) => Ok(((x1, x2, x3), n1 + n2 + n3)),
                },
            },
        }
    }

    fn read_from(buffer: &mut Cursor) -> (r: Result<LoginSuccessProperty, MinecraftReadError>) {
        let name = match <String as MinecraftReadable>::read_from(buffer) {
            Ok(v) => v,
            Err(e) => return Err(e),
        };
        let value = match <String as MinecraftReadable>::read_from(buffer) {
            Ok(v) => v,
            Err(e) => return Err(e),
        };
        let signature = match <Option<String> as MinecraftReadable>::read_from(buffer) {
            Ok(v) => v,
            Err(e) => return Err(e),
        };
        Ok(LoginSuccessProperty { name, value, signature })
    }
}

impl MinecraftWriteable for LoginSuccessProperty {
    open spec fn encode(v: (Seq<char>, Seq<char>, Option<Seq<char>>)) -> Result<Seq<u8>, MinecraftWriteError> {
        match <String as MinecraftWriteable>::encode(v.0) {
            Err(e) => Err(e),
            Ok(x1) => match <String as MinecraftWriteable>::encode(v.1) {
                Err(e) => Err(e),
                Ok(x2) => match <Option<String> as MinecraftWriteable>::encode(v.2) {
                    Err(e) => Err(e),
                    Ok(x3) => Ok(x1 + (x2 + x3)),
                },
            },
        }
    }

    fn write_to(&self, buffer: &mut Vec<u8>) -> (r: Result<(), MinecraftWriteError>) {
        match self.name.write_to(buffer) {
            Ok(()) => {},
            Err(e) => return Err(e),
        }
        match self.value.write_to(buffer) {
            Ok(()) => {},
            Err(e) => return Err(e),
        }
        match self.signature.write_to(buffer) {
            Ok(()) => {},
            Err(e) => return Err(e),
        }
        proof {
            let v = self.deep_view();
            let x1 = <String as MinecraftWriteable>::encode(v.0)->Ok_0;
            let x2 = <String as MinecraftWriteable>::encode(v.1)->Ok_0;
            let x3 = <Option<String> as MinecraftWriteable>::encode(v.2)->Ok_0;
            assert(buffer@ =~= old(buffer)@ + x1 + (x2 + x3));
        }
        Ok(())
    }
}

impl MinecraftCodec for LoginSuccessProperty {
    #[verifier::spinoff_prover]
    proof fn lemma_round_trip(v: (Seq<char>, Seq<char>, Option<Seq<char>>), rest: Seq<u8>) {
        let x1 = <String as MinecraftWriteable>::encode(v.0)->Ok_0;
        let x2 = <String as MinecraftWriteable>::encode(v.1)->Ok_0;
        let x3 = <Option<String> as MinecraftWriteable>::encode(v.2)->Ok_0;
        <String as MinecraftCodec>::lemma_round_trip(v.0, x2 + (x3 + rest));
        <String as MinecraftCodec>::lemma_round_trip(v.1, x3 + rest);
        <Option<String> as MinecraftCodec>::lemma_round_trip(v.2, rest);
        assert((x1 + (x2 + x3)) + rest =~= x1 + (x2 + (x3 + rest)));
        assert((x1 + (x2 + (x3 + rest))).skip((x1.len()) as int) == x2 + (x3 + rest)) by {
            assert((x1 + (x2 + (x3 + rest))).skip((x1.len()) as int) =~= x2 + (x3 + rest));
        }
        assert((x1 + (x2 + (x3 + rest))).skip((x1.len() + x2.len()) as int) == x3 + rest) by {
            assert((x1 + (x2 + (x3 + rest))).skip((x1.len() + x2.len()) as int) =~= x3 + rest);
        }
        assert(<String as MinecraftReadable>::parse((x1 + (x2 + (x3 + rest)))) == Ok::<(Seq<char>, nat), MinecraftReadError>((v.0, x1.len())));
        assert(<String as MinecraftReadable>::parse((x1 + (x2 + (x3 + rest))).skip((x1.len()) as int)) == Ok::<(Seq<char>, nat), MinecraftReadError>((v.1, x2.len())));
        assert(<Option<String> as MinecraftReadable>::parse((x1 + (x2 + (x3 + rest))).skip((x1.len() + x2.len()) as int)) == Ok::<(Option<Seq<char>>, nat), MinecraftReadError>((v.2, x3.len())));
    }
}

/// The end of a successful login: the player's UUID, name and profile.
#[derive(Debug, Clone)]
pub struct LoginSuccess {
    pub uuid: u128,
    pub username: String,
    pub properties: Vec<LoginSuccessProperty>,
}

impl DeepView for LoginSuccess {
    type V = (u128, Seq<char>, Seq<(Seq<char>, Seq<char>, Option<Seq<char>>)>);

    open spec fn deep_view(&self) -> (u128, Seq<char>, Seq<(Seq<char>, Seq<char>, Option<Seq<char>>)>) {
        (self.uuid.deep_view(), self.username.deep_view(), self.properties.deep_view())
    }
}

impl MinecraftReadable for LoginSuccess {
    open spec fn parse(b: Seq<u8>) -> Result<((u128, Seq<char>, Seq<(Seq<char>, Seq<char>, Option<Seq<char>>)>), nat), MinecraftReadError> {
        match <u128 as MinecraftReadable>::parse(b) {
            Err(e) => Err(e),
            Ok((x1, n1)) => match <String as MinecraftReadable>::parse(b.skip(n1 as int)) {
                Err(e) => Err(e),
                Ok((x2, n2)) => match <Vec<LoginSuccessProperty> as MinecraftReadable>::parse(b.skip((n1 + n2) as int)) {
                    Err(e) => Err(e),
                    Ok((x3, n3)) => Ok(((x1, x2, x3), n1 + n2 + n3)),
                },
            },
        }
    }

    fn read_from(buffer: &mut Cursor) -> (r: Result<LoginSuccess, MinecraftReadError>) {
        let uuid = match <u128 as MinecraftReadable>::read_from(buffer) {
            Ok(v) => v,
            Err(e) => return Err(e),
        };
        let username = match <String as MinecraftReadable>::read_from(buffer) {
            Ok(v) => v,
            Err(e) => return Err(e),
        };
        let properties = match <Vec<LoginSuccessProperty> as MinecraftReadable>::read_from(buffer) {
            Ok(v) => v,
            Err(e) => return Err(e),
        };
        Ok(LoginSuccess { uuid, username, properties })
    }
}

impl MinecraftWriteable for LoginSuccess {
    open spec fn encode(v: (u128, Seq<char>, Seq<(Seq<char>, Seq<char>, Option<Seq<char>>)>)) -> Result<Seq<u8>, MinecraftWriteError> {
        match <u128 as MinecraftWriteable>::encode(v.0) {
            Err(e) => Err(e),
            Ok(x1) => match <String as MinecraftWriteable>::encode(v.1) {
                Err(e) => Err(e),
                Ok(x2) => match <Vec<LoginSuccessProperty> as MinecraftWriteable>::encode(v.2) {
                    Err(e) => Err(e),
                    Ok(x3) => Ok(x1 + (x2 + x3)),
                },
            },
        }
    }

    fn write_to(&self, buffer: &mut Vec<u8>) -> (r: Result<(), MinecraftWriteError>) {
        match self.uuid.write_to(buffer) {
            Ok(()) => {},
            Err(e) => return Err(e),
        }
        match self.username.write_to(buffer) {
            Ok(()) => {},
            Err(e) => return Err(e),
        }
        match self.properties.write_to(buffer) {
            Ok(()) => {},
            Err(e) => return Err(e),
        }
        proof {
            let v = self.deep_view();
            let x1 = <u128 as MinecraftWriteable>::encode(v.0)->Ok_0;
            let x2 = <String as MinecraftWriteable>::encode(v.1)->Ok_0;
            let x3 = <Vec<LoginSuccessProperty> as MinecraftWriteable>::encode(v.2)->Ok_0;
            assert(buffer@ =~= old(buffer)@ + x1 + (x2 + x3));
        }
        Ok(())
    }
}

impl MinecraftCodec for LoginSuccess {
    #[verifier::spinoff_prover]
    proof fn lemma_round_trip(v: (u128, Seq<char>, Seq<(Seq<char>, Seq<char>, Option<Seq<char>>)>), rest: Seq<u8>) {
        let x1 = <u128 as MinecraftWriteable>::encode(v.0)->Ok_0;
        let x2 = <String as MinecraftWriteable>::encode(v.1)->Ok_0;
        let x3 = <Vec<LoginSuccessProperty> as MinecraftWriteable>::encode(v.2)->Ok_0;
        <u128 as MinecraftCodec>::lemma_round_trip(v.0, x2 + (x3 + rest));
        <String as MinecraftCodec>::lemma_round_trip(v.1, x3 + rest);
        <Vec<LoginSuccessProperty> as MinecraftCodec>::lemma_round_trip(v.2, rest);
        assert((x1 + (x2 + x3)) + rest =~= x1 + (x2 + (x3 + rest)));
        assert((x1 + (x2 + (x3 + rest))).skip((x1.len()) as int) == x2 + (x3 + rest)) by {
            assert((x1 + (x2 + (x3 + rest))).skip((x1.len()) as int) =~= x2 + (x3 + rest));
        }
        assert((x1 + (x2 + (x3 + rest))).skip((x1.len() + x2.len()) as int) == x3 + rest) by {
            assert((x1 + (x2 + (x3 + rest))).skip((x1.len() + x2.len()) as int) =~= x3 + rest);
        }
        assert(<u128 as MinecraftReadable>::parse((x1 + (x2 + (x3 + rest)))) == Ok::<(u128, nat), MinecraftReadError>((v.0, x1.len())));
        assert(<String as MinecraftReadable>::parse((x1 + (x2 + (x3 + rest))).skip((x1.len()) as int)) == Ok::<(Seq<char>, nat), MinecraftReadError>((v.1, x2.len())));
        assert(<Vec<LoginSuccessProperty> as MinecraftReadable>::parse((x1 + (x2 + (x3 + rest))).skip((x1.len() + x2.len()) as int)) == Ok::<(Seq<(Seq<char>, Seq<char>, Option<Seq<char>>)>, nat), MinecraftReadError>((v.2, x3.len())));
    }
}

impl MinecraftPacket for LoginSuccess {
    open spec fn id_spec() -> i32 {
        2
    }

    open spec fn direction_spec() -> PacketDirection {
        PacketDirection::Clientbound
    }

    open spec fn status_spec() -> NetworkStatus {
        NetworkStatus::Login
    }

    fn get_id() -> (r: i32) {
        2
    }

    fn get_direction() -> (r: PacketDirection) {
        PacketDirection::Clientbound
    }

    fn get_status() -> (r: NetworkStatus) {
        NetworkStatus::Login
    }
}

/// The server's packet-compression threshold.
#[derive(Debug, Clone, Copy)]
pub struct SetCompression {
    /// Encoded as a VarInt.
    pub threshold: i32,
}

impl DeepView for SetCompression {
    type V = i32;

    open spec fn deep_view(&self) -> i32 {
        self.threshold
    }
}

impl MinecraftReadable for SetCompression {
    open spec fn parse(b: Seq<u8>) -> Result<(i32, nat), MinecraftReadError> {
        match <i32 as MinecraftReadableVar>::parse_var(b) {
            Err(e) => Err(e),
            Ok((x1, n1)) => Ok((x1, n1)),
        }
    }

    fn read_from(buffer: &mut Cursor) -> (r: Result<SetCompression, MinecraftReadError>) {
        let threshold = match i32::read_var_from(buffer) {
            Ok(v) => v,
            Err(e) => return Err(e),
        };
        Ok(SetCompression { threshold })
    }
}

impl MinecraftWriteable for SetCompression {
    open spec fn encode(v: i32) -> Result<Seq<u8>, MinecraftWriteError> {
        match <i32 as MinecraftWriteableVar>::encode_var(v) {
            Err(e) => Err(e),
            Ok(x1) => Ok(x1),
        }
    }

    fn write_to(&self, buffer: &mut Vec<u8>) -> (r: Result<(), MinecraftWriteError>) {
        match self.threshold.write_var_to(buffer) {
            Ok(()) => {},
            Err(e) => return Err(e),
        }
        proof {
            let v = self.deep_view();
            let x1 = <i32 as MinecraftWriteableVar>::encode_var(v)->Ok_0;
            assert(buffer@ =~= old(buffer)@ + x1);
        }
        Ok(())
    }
}

impl MinecraftCodec for SetCompression {
    proof fn lemma_round_trip(v: i32, rest: Seq<u8>) {
        let x1 = <i32 as MinecraftWriteableVar>::encode_var(v)->Ok_0;
        <i32 as MinecraftCodecVar>::lemma_var_round_trip(v, rest);
        assert((x1) + rest =~= x1 + rest);
        assert(<i32 as MinecraftReadableVar>::parse_var((x1 + rest)) == Ok::<(i32, nat), MinecraftReadError>((v, x1.len())));
    }
}

impl MinecraftPacket for SetCompression {
    open spec fn id_spec() -> i32 {
        3
    }

    open spec fn direction_spec() -> PacketDirection {
        PacketDirection::Clientbound
    }

    open spec fn status_spec() -> NetworkStatus {
        NetworkStatus::Login
    }

    fn get_id() -> (r: i32) {
        3
    }

    fn get_direction() -> (r: PacketDirection) {
        PacketDirection::Clientbound
    }

    fn get_status() -> (r: NetworkStatus) {
        NetworkStatus::Login
    }
}

/// A plugin message from the server during login.
#[derive(Debug, Clone)]
pub struct LoginPluginRequest {
    /// Encoded as a VarInt.
    pub message_id: i32,
    pub channel: String,
    pub data: Vec<u8>,
}

impl DeepView for LoginPluginRequest {
    type V = (i32, Seq<char>, Seq<u8>);

    open spec fn deep_view(&self) -> (i32, Seq<char>, Seq<u8>) {
        (self.message_id, self.channel.deep_view(), self.data.deep_view())
    }
}

impl MinecraftReadable for LoginPluginRequest {
    open spec fn parse(b: Seq<u8>) -> Result<((i32, Seq<char>, Seq<u8>), nat), MinecraftReadError> {
        match <i32 as MinecraftReadableVar>::parse_var(b) {
            Err(e) => Err(e),
            Ok((x1, n1)) => match <String as MinecraftReadable>::parse(b.skip(n1 as int)) {
                Err(e) => Err(e),
                Ok((x2, n2)) => match <Vec<u8> as MinecraftReadable>::parse(b.skip((n1 + n2) as int)) {
                    Err(e) => Err(e),
                    Ok((x3, n3)) => Ok(((x1, x2, x3), n1 + n2 + n3)),
                },
            },
        }
    }

    fn read_from(buffer: &mut Cursor) -> (r: Result<LoginPluginRequest, MinecraftReadError>) {
        let message_id = match i32::read_var_from(buffer) {
            Ok(v) => v,
            Err(e) => return Err(e),
        };
        let channel = match <String as MinecraftReadable>::read_from(buffer) {
            Ok(v) => v,
            Err(e) => return Err(e),
        };
        let data = match <Vec<u8> as MinecraftReadable>::read_from(buffer) {
            Ok(v) => v,
            Err(e) => return Err(e),
        };
        Ok(LoginPluginRequest { message_id, channel, data })
    }
}

impl MinecraftWriteable for LoginPluginRequest {
    open spec fn encode(v: (i32, Seq<char>, Seq<u8>)) -> Result<Seq<u8>, MinecraftWriteError> {
        match <i32 as MinecraftWriteableVar>::encode_var(v.0) {
            Err(e) => Err(e),
            Ok(x1) => match <String as MinecraftWriteable>::encode(v.1) {
                Err(e) => Err(e),
                Ok(x2) => match <Vec<u8> as MinecraftWriteable>::encode(v.2) {
                    Err(e) => Err(e),
                    Ok(x3) => Ok(x1 + (x2 + x3)),
                },
            },
        }
    }

    fn write_to(&self, buffer: &mut Vec<u8>) -> (r: Result<(), MinecraftWriteError>) {
        match self.message_id.write_var_to(buffer) {
            Ok(()) => {},
            Err(e) => return Err(e),
        }
        match self.channel.write_to(buffer) {
            Ok(()) => {},
            Err(e) => return Err(e),
        }
        match self.data.write_to(buffer) {
            Ok(()) => {},
            Err(e) => return Err(e),
        }
        proof {
            let v = self.deep_view();
            let x1 = <i32 as MinecraftWriteableVar>::encode_var(v.0)->Ok_0;
            let x2 = <String as MinecraftWriteable>::encode(v.1)->Ok_0;
            let x3 = <Vec<u8> as MinecraftWriteable>::encode(v.2)->Ok_0;
            assert(buffer@ =~= old(buffer)@ + x1 + (x2 + x3));
        }
        Ok(())
    }
}

impl MinecraftCodec for LoginPluginRequest {
    #[verifier::spinoff_prover]
    proof fn lemma_round_trip(v: (i32, Seq<char>, Seq<u8>), rest: Seq<u8>) {
        let x1 = <i32 as MinecraftWriteableVar>::encode_var(v.0)->Ok_0;
        let x2 = <String as MinecraftWriteable>::encode(v.1)->Ok_0;
        let x3 = <Vec<u8> as MinecraftWriteable>::encode(v.2)->Ok_0;
        <i32 as MinecraftCodecVar>::lemma_var_round_trip(v.0, x2 + (x3 + rest));
        <String as MinecraftCodec>::lemma_round_trip(v.1, x3 + rest);
        <Vec<u8> as MinecraftCodec>::lemma_round_trip(v.2, rest);
        assert((x1 + (x2 + x3)) + rest =~= x1 + (x2 + (x3 + rest)));
        assert((x1 + (x2 + (x3 + rest))).skip((x1.len()) as int) == x2 + (x3 + rest)) by {
            assert((x1 + (x2 + (x3 + rest))).skip((x1.len()) as int) =~= x2 + (x3 + rest));
        }
        assert((x1 + (x2 + (x3 + rest))).skip((x1.len() + x2.len()) as int) == x3 + rest) by {
            assert((x1 + (x2 + (x3 + rest))).skip((x1.len() + x2.len()) as int) =~= x3 + rest);
        }
        assert(<i32 as MinecraftReadableVar>::parse_var((x1 + (x2 + (x3 + rest)))) == Ok::<(i32, nat), MinecraftReadError>((v.0, x1.len())));
        assert(<String as MinecraftReadable>::parse((x1 + (x2 + (x3 + rest))).skip((x1.len()) as int)) == Ok::<(Seq<char>, nat), MinecraftReadError>((v.1, x2.len())));
        assert(<Vec<u8> as MinecraftReadable>::parse((x1 + (x2 + (x3 + rest))).skip((x1.len() + x2.len()) as int)) == Ok::<(Seq<u8>, nat), MinecraftReadError>((v.2, x3.len())));
    }
}

impl MinecraftPacket for LoginPluginRequest {
    open spec fn id_spec() -> i32 {
        4
    }

    open spec fn direction_spec() -> PacketDirection {
        PacketDirection::Clientbound
    }

    open spec fn status_spec() -> NetworkStatus {
        NetworkStatus::Login
    }

    fn get_id() -> (r: i32) {
        4
    }

    fn get_direction() -> (r: PacketDirection) {
        PacketDirection::Clientbound
    }

    fn get_status() -> (r: NetworkStatus) {
        NetworkStatus::Login
    }
}

} // verus!
