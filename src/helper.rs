use vstd::prelude::*;

use crate::codec::{MinecraftReadable, MinecraftReadableVar};
use crate::cursor::Cursor;
use crate::error::{MinecraftReadError, MinecraftWriteError};
use crate::stream::{frame_encode, packet_parse, read_contents_from, write_frame, MinecraftPacket};

verus! {

/// Decodes a cursor's whole buffer, from its start, as the contents of one
/// frame (id and body, no length prefix) holding a packet `P`.
pub fn read_packet<P: MinecraftPacket>(data: &mut Cursor) -> (r: Result<P, MinecraftReadError>)
    ensures
        final(data).data() == old(data).data(),
        match packet_parse::<P>(old(data).data()) {
            Ok(v) => r is Ok && r->Ok_0.deep_view() == v,
            Err(e) => r == Err::<P, MinecraftReadError>(e),
        },
{
    data.set_position(0);
    assert(data.rest() =~= data.data());
    read_contents_from::<P>(data)
}

/// The frame holding `packet`.
pub fn to_bytes<P: MinecraftPacket>(packet: &P) -> (r: Result<Vec<u8>, MinecraftWriteError>)
    ensures
        match frame_encode::<P>(packet.deep_view()) {
            Ok(bytes) => r is Ok && r->Ok_0@ == bytes,
            Err(e) => r == Err::<Vec<u8>, MinecraftWriteError>(e),
        },
{
    let mut out: Vec<u8> = Vec::new();
    match write_frame(packet, &mut out) {
        Ok(()) => {
            assert(out@ =~= frame_encode::<P>(packet.deep_view())->Ok_0);
            Ok(out)
        },
        Err(e) => Err(e),
    }
}

/// Decodes one value from the cursor.
pub fn read_type<P: MinecraftReadable>(data: &mut Cursor) -> (r: Result<P, MinecraftReadError>)
    ensures
        final(data).data() == old(data).data(),
        match P::parse(old(data).rest()) {
            Ok((v, n)) => r is Ok && r->Ok_0.deep_view() == v && final(data).rest() == old(data).rest().skip(n as int),
            Err(e) => r == Err::<P, MinecraftReadError>(e),
        },
{
    P::read_from(data)
}

/// Decodes one variable-length value (a VarInt or a VarLong) from the cursor.
pub fn read_var_type<P: MinecraftReadableVar>(data: &mut Cursor) -> (r: Result<P, MinecraftReadError>)
    ensures
        final(data).data() == old(data).data(),
        match P::parse_var(old(data).rest()) {
            Ok((v, n)) => r is Ok && r->Ok_0.deep_view() == v && final(data).rest() == old(data).rest().skip(n as int),
            Err(e) => r == Err::<P, MinecraftReadError>(e),
        },
{
    P::read_var_from(data)
}

} // verus!
