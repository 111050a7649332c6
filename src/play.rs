use vstd::prelude::*;

use crate::codec::{MinecraftCodec, MinecraftReadable, MinecraftWriteable};
use crate::cursor::{lemma_skip_front, lemma_skip_skip, Cursor};
use crate::error::{MinecraftReadError, MinecraftWriteError};
use crate::stream::{MinecraftPacket, NetworkStatus, PacketDirection};

verus! {

broadcast use {lemma_skip_skip, lemma_skip_front};


/// The client's answer to a keep-alive.
#[derive(Debug, Clone, Copy)]
pub struct KeepAliveServerbound {
    pub id: i64,
}

impl DeepView for KeepAliveServerbound {
    type V = i64;

    open spec fn deep_view(&self) -> i64 {
        self.id.deep_view()
    }
}

impl MinecraftReadable for KeepAliveServerbound {
    open spec fn parse(b: Seq<u8>) -> Result<(i64, nat), MinecraftReadError> {
        match <i64 as MinecraftReadable>::parse(b) {
            Err(e) => Err(e),
            Ok((x1, n1)) => Ok((x1, n1)),
        }
    }

    fn read_from(buffer: &mut Cursor) -> (r: Result<KeepAliveServerbound, MinecraftReadError>) {
        let id = match <i64 as MinecraftReadable>::read_from(buffer) {
            Ok(v) => v,
            Err(e) => return Err(e),
        };
        Ok(KeepAliveServerbound { id })
    }
}

impl MinecraftWriteable for KeepAliveServerbound {
    open spec fn encode(v: i64) -> Result<Seq<u8>, MinecraftWriteError> {
        match <i64 as MinecraftWriteable>::encode(v) {
            Err(e) => Err(e),
            Ok(x1) => Ok(x1),
        }
    }

    fn write_to(&self, buffer: &mut Vec<u8>) -> (r: Result<(), MinecraftWriteError>) {
        match self.id.write_to(buffer) {
            Ok(()) => {},
            Err(e) => return Err(e),
        }
        proof {
            let v = self.deep_view();
            let x1 = <i64 as MinecraftWriteable>::encode(v)->Ok_0;
            assert(buffer@ =~= old(buffer)@ + x1);
        }
        Ok(())
    }
}

impl MinecraftCodec for KeepAliveServerbound {
    proof fn lemma_round_trip(v: i64, rest: Seq<u8>) {
        let x1 = <i64 as MinecraftWriteable>::encode(v)->Ok_0;
        <i64 as MinecraftCodec>::lemma_round_trip(v, rest);
        assert((x1) + rest =~= x1 + rest);
        assert(<i64 as MinecraftReadable>::parse((x1 + rest)) == Ok::<(i64, nat), MinecraftReadError>((v, x1.len())));
    }
}

impl MinecraftPacket for KeepAliveServerbound {
    open spec fn id_spec() -> i32 {
        18
    }

    open spec fn direction_spec() -> PacketDirection {
        PacketDirection::Serverbound
    }

    open spec fn status_spec() -> NetworkStatus {
        NetworkStatus::Play
    }

    fn get_id() -> (r: i32) {
        18
    }

    fn get_direction() -> (r: PacketDirection) {
        PacketDirection::Serverbound
    }

    fn get_status() -> (r: NetworkStatus) {
        NetworkStatus::Play
    }
}

/// The server's reason for ending a game session, as a JSON text component.
#[derive(Debug, Clone)]
pub struct DisconnectPlayPacket {
    pub reason: String,
}

impl DeepView for DisconnectPlayPacket {
    type V = Seq<char>;

    open spec fn deep_view(&self) -> Seq<char> {
        self.reason.deep_view()
    }
}

impl MinecraftReadable for DisconnectPlayPacket {
    open spec fn parse(b: Seq<u8>) -> Result<(Seq<char>, nat), MinecraftReadError> {
        match <String as MinecraftReadable>::parse(b) {
            Err(e) => Err(e),
            Ok((x1, n1)) => Ok((x1, n1)),
        }
    }

    fn read_from(buffer: &mut Cursor) -> (r: Result<DisconnectPlayPacket, MinecraftReadError>) {
        let reason = match <String as MinecraftReadable>::read_from(buffer) {
            Ok(v) => v,
            Err(e) => return Err(e),
        };
        Ok(DisconnectPlayPacket { reason })
    }
}

impl MinecraftWriteable for DisconnectPlayPacket {
    open spec fn encode(v: Seq<char>) -> Result<Seq<u8>, MinecraftWriteError> {
        match <String as MinecraftWriteable>::encode(v) {
            Err(e) => Err(e),
            Ok(x1) => Ok(x1),
        }
    }

    fn write_to(&self, buffer: &mut Vec<u8>) -> (r: Result<(), MinecraftWriteError>) {
        match self.reason.write_to(buffer) {
            Ok(()) => {},
            Err(e) => return Err(e),
        }
        proof {
            let v = self.deep_view();
            let x1 = <String as MinecraftWriteable>::encode(v)->Ok_0;
            assert(buffer@ =~= old(buffer)@ + x1);
        }
        Ok(())
    }
}

impl MinecraftCodec for DisconnectPlayPacket {
    proof fn lemma_round_trip(v: Seq<char>, rest: Seq<u8>) {
        let x1 = <String as MinecraftWriteable>::encode(v)->Ok_0;
        <String as MinecraftCodec>::lemma_round_trip(v, rest);
        assert((x1) + rest =~= x1 + rest);
        assert(<String as MinecraftReadable>::parse((x1 + rest)) == Ok::<(Seq<char>, nat), MinecraftReadError>((v, x1.len())));
    }
}

impl MinecraftPacket for DisconnectPlayPacket {
    open spec fn id_spec() -> i32 {
        26
    }

    open spec fn direction_spec() -> PacketDirection {
        PacketDirection::Clientbound
    }

    open spec fn status_spec() -> NetworkStatus {
        NetworkStatus::Play
    }

    fn get_id() -> (r: i32) {
        26
    }

    fn get_direction() -> (r: PacketDirection) {
        PacketDirection::Clientbound
    }

    fn get_status() -> (r: NetworkStatus) {
        NetworkStatus::Play
    }
}

/// The server's keep-alive.
#[derive(Debug, Clone, Copy)]
pub struct KeepAliveClientbound {
    pub id: i64,
}

impl DeepView for KeepAliveClientbound {
    type V = i64;

    open spec fn deep_view(&self) -> i64 {
        self.id.deep_view()
    }
}

impl MinecraftReadable for KeepAliveClientbound {
    open spec fn parse(b: Seq<u8>) -> Result<(i64, nat), MinecraftReadError> {
        match <i64 as MinecraftReadable>::parse(b) {
            Err(e) => Err(e),
            Ok((x1, n1)) => Ok((x1, n1)),
        }
    }

    fn read_from(buffer: &mut Cursor) -> (r: Result<KeepAliveClientbound, MinecraftReadError>) {
        let id = match <i64 as MinecraftReadable>::read_from(buffer) {
            Ok(v) => v,
            Err(e) => return Err(e),
        };
        Ok(KeepAliveClientbound { id })
    }
}

impl MinecraftWriteable for KeepAliveClientbound {
    open spec fn encode(v: i64) -> Result<Seq<u8>, MinecraftWriteError> {
        match <i64 as MinecraftWriteable>::encode(v) {
            Err(e) => Err(e),
            Ok(x1) => Ok(x1),
        }
    }

    fn write_to(&self, buffer: &mut Vec<u8>) -> (r: Result<(), MinecraftWriteError>) {
        match self.id.write_to(buffer) {
            Ok(()) => {},
            Err(e) => return Err(e),
        }
        proof {
            let v = self.deep_view();
            let x1 = <i64 as MinecraftWriteable>::encode(v)->Ok_0;
            assert(buffer@ =~= old(buffer)@ + x1);
        }
        Ok(())
    }
}

impl MinecraftCodec for KeepAliveClientbound {
    proof fn lemma_round_trip(v: i64, rest: Seq<u8>) {
        let x1 = <i64 as MinecraftWriteable>::encode(v)->Ok_0;
        <i64 as MinecraftCodec>::lemma_round_trip(v, rest);
        assert((x1) + rest =~= x1 + rest);
        assert(<i64 as MinecraftReadable>::parse((x1 + rest)) == Ok::<(i64, nat), MinecraftReadError>((v, x1.len())));
    }
}

impl MinecraftPacket for KeepAliveClientbound {
    open spec fn id_spec() -> i32 {
        35
    }

    open spec fn direction_spec() -> PacketDirection {
        PacketDirection::Clientbound
    }

    open spec fn status_spec() -> NetworkStatus {
        NetworkStatus::Play
    }

    fn get_id() -> (r: i32) {
        35
    }

    fn get_direction() -> (r: PacketDirection) {
        PacketDirection::Clientbound
    }

    fn get_status() -> (r: NetworkStatus) {
        NetworkStatus::Play
    }
}

/// The world's age and time of day, in ticks.
#[derive(Debug, Clone, Copy)]
pub struct UpdateTime {
    pub world_age: i64,
    pub time: i64,
}

impl DeepView for UpdateTime {
    type V = (i64, i64);

    open spec fn deep_view(&self) -> (i64, i64) {
        (self.world_age.deep_view(), self.time.deep_view())
    }
}

impl MinecraftReadable for UpdateTime {
    open spec fn parse(b: Seq<u8>) -> Result<((i64, i64), nat), MinecraftReadError> {
        match <i64 as MinecraftReadable>::parse(b) {
            Err(e) => Err(e),
            Ok((x1, n1)) => match <i64 as MinecraftReadable>::parse(b.skip(n1 as int)) {
                Err(e) => Err(e),
                Ok((x2, n2)) => Ok(((x1, x2), n1 + n2)),
            },
        }
    }

    fn read_from(buffer: &mut Cursor) -> (r: Result<UpdateTime, MinecraftReadError>) {
        let world_age = match <i64 as MinecraftReadable>::read_from(buffer) {
            Ok(v) => v,
            Err(e) => return Err(e),
        };
        let time = match <i64 as MinecraftReadable>::read_from(buffer) {
            Ok(v) => v,
            Err(e) => return Err(e),
        };
        Ok(UpdateTime { world_age, time })
    }
}

impl MinecraftWriteable for UpdateTime {
    open spec fn encode(v: (i64, i64)) -> Result<Seq<u8>, MinecraftWriteError> {
        match <i64 as MinecraftWriteable>::encode(v.0) {
            Err(e) => Err(e),
            Ok(x1) => match <i64 as MinecraftWriteable>::encode(v.1) {
                Err(e) => Err(e),
                Ok(x2) => Ok(x1 + x2),
            },
        }
    }

    fn write_to(&self, buffer: &mut Vec<u8>) -> (r: Result<(), MinecraftWriteError>) {
        match self.world_age.write_to(buffer) {
            Ok(()) => {},
            Err(e) => return Err(e),
        }
        match self.time.write_to(buffer) {
            Ok(()) => {},
            Err(e) => return Err(e),
        }
        proof {
            let v = self.deep_view();
            let x1 = <i64 as MinecraftWriteable>::encode(v.0)->Ok_0;
            let x2 = <i64 as MinecraftWriteable>::encode(v.1)->Ok_0;
            assert(buffer@ =~= old(buffer)@ + x1 + x2);
        }
        Ok(())
    }
}

impl MinecraftCodec for UpdateTime {
    proof fn lemma_round_trip(v: (i64, i64), rest: Seq<u8>) {
        let x1 = <i64 as MinecraftWriteable>::encode(v.0)->Ok_0;
        let x2 = <i64 as MinecraftWriteable>::encode(v.1)->Ok_0;
        <i64 as MinecraftCodec>::lemma_round_trip(v.0, x2 + rest);
        <i64 as MinecraftCodec>::lemma_round_trip(v.1, rest);
        assert((x1 + x2) + rest =~= x1 + (x2 + rest));
        assert((x1 + (x2 + rest)).skip((x1.len()) as int) == x2 + rest) by {
            assert((x1 + (x2 + rest)).skip((x1.len()) as int) =~= x2 + rest);
        }
        assert(<i64 as MinecraftReadable>::parse((x1 + (x2 + rest))) == Ok::<(i64, nat), MinecraftReadError>((v.0, x1.len())));
        assert(<i64 as MinecraftReadable>::parse((x1 + (x2 + rest)).skip((x1.len()) as int)) == Ok::<(i64, nat), MinecraftReadError>((v.1, x2.len())));
    }
}

impl MinecraftPacket for UpdateTime {
    open spec fn id_spec() -> i32 {
        94
    }

    open spec fn direction_spec() -> PacketDirection {
        PacketDirection::Clientbound
    }

    open spec fn status_spec() -> NetworkStatus {
        NetworkStatus::Play
    }

    fn get_id() -> (r: i32) {
        94
    }

    fn get_direction() -> (r: PacketDirection) {
        PacketDirection::Clientbound
    }

    fn get_status() -> (r: NetworkStatus) {
        NetworkStatus::Play
    }
}

} // verus!
