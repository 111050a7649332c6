use vstd::prelude::*;

use crate::codec::{MinecraftCodec, MinecraftReadable, MinecraftReadableVar, MinecraftWriteableVar};
use crate::cursor::Cursor;
use crate::error::{MinecraftReadError, MinecraftWriteError};
use crate::text::push_bytes;
use crate::varint::{varint_parse, varint_wire};

verus! {

/// Which way a packet travels.
#[derive(Debug, Clone, Copy, PartialEq, Eq, Structural)]
pub enum PacketDirection {
    /// From the server to the client.
    Clientbound,
    /// From the client to the server.
    Serverbound,
}

/// The protocol phase a packet belongs to.
#[derive(Debug, Clone, Copy, PartialEq, Eq, Structural)]
pub enum NetworkStatus {
    Handshake,
    Status,
    Login,
    Play,
}

/// A packet: a value with an encoding, and a fixed id, direction and phase.
pub trait MinecraftPacket: MinecraftCodec {
    /// The packet id.
    spec fn id_spec() -> i32;

    /// The direction the packet travels.
    spec fn direction_spec() -> PacketDirection;

    /// The phase the packet belongs to.
    spec fn status_spec() -> NetworkStatus;

    fn get_id() -> (r: i32)
        ensures
            r == Self::id_spec(),
    ;

    fn get_direction() -> (r: PacketDirection)
        ensures
            r == Self::direction_spec(),
    ;

    fn get_status() -> (r: NetworkStatus)
        ensures
            r == Self::status_spec(),
    ;
}

/// Decoding the contents of one frame (the bytes its length prefix counts)
/// as a packet `P`: its id as a VarInt, which must be `P`'s, then its body,
/// which must take every byte that is left.
pub open spec fn packet_parse<P: MinecraftPacket>(contents: Seq<u8>) -> Result<P::V, MinecraftReadError> {
    match varint_parse(contents) {
        Err(e) => Err(e),
        Ok((id, n)) => if id != P::id_spec() {
            Err(MinecraftReadError::PacketIdMismatch { expected: P::id_spec(), got: id })
        } else {
            match P::parse(contents.skip(n as int)) {
                Err(e) => Err(e),
                Ok((v, m)) => if n + m < contents.len() {
                    Err(MinecraftReadError::TrailingBytes { extra: (contents.len() - n - m) as u64 })
                } else {
                    Ok(v)
                },
            }
        },
    }
}

/// Decoding one frame holding a packet `P` from the front of `b`: a VarInt
/// length, then that many bytes of contents. Gives the packet and the bytes
/// the frame took.
pub open spec fn frame_parse<P: MinecraftPacket>(b: Seq<u8>) -> Result<(P::V, nat), MinecraftReadError> {
    match varint_parse(b) {
        Err(e) => Err(e),
        Ok((len, n)) => if len < 0 {
            Err(MinecraftReadError::NegativeLength { count: len })
        } else if b.len() < n + len {
            Err(MinecraftReadError::UnexpectedEof)
        } else {
            match packet_parse::<P>(b.subrange(n as int, n + len)) {
                Ok(v) => Ok((v, n + len as nat)),
                Err(e) => Err(e),
            }
        },
    }
}

/// The contents of the frame holding packet `P` with model `v`: its id as a
/// VarInt, then its body.
pub open spec fn packet_encode<P: MinecraftPacket>(v: P::V) -> Result<Seq<u8>, MinecraftWriteError> {
    match P::encode(v) {
        Err(e) => Err(e),
        Ok(body) => Ok(varint_wire(P::id_spec()) + body),
    }
}

/// The frame holding packet `P` with model `v`: the length of its contents as
/// a VarInt, then the contents. Contents too long for the prefix are refused,
/// with the length of the body.
pub open spec fn frame_encode<P: MinecraftPacket>(v: P::V) -> Result<Seq<u8>, MinecraftWriteError> {
    match P::encode(v) {
        Err(e) => Err(e),
        Ok(body) => {
            let contents = varint_wire(P::id_spec()) + body;
            if contents.len() > i32::MAX {
                Err(MinecraftWriteError::LengthOverflow { size: body.len() as u64 })
            } else {
                Ok(varint_wire(contents.len() as i32) + contents)
            }
        },
    }
}

/// Decodes the rest of the cursor as the contents of one frame holding a
/// packet `P`.
pub fn read_contents_from<P: MinecraftPacket>(c: &mut Cursor) -> (r: Result<P, MinecraftReadError>)
    ensures
        final(c).data() == old(c).data(),
        match packet_parse::<P>(old(c).rest()) {
            Ok(v) => r is Ok && r->Ok_0.deep_view() == v,
            Err(e) => r == Err::<P, MinecraftReadError>(e),
        },
{
    let id = match i32::read_var_from(c) {
        Ok(id) => id,
        Err(e) => return Err(e),
    };
    let expected = P::get_id();
    if id != expected {
        return Err(MinecraftReadError::PacketIdMismatch { expected, got: id });
    }
    let v = match P::read_from(c) {
        Ok(v) => v,
        Err(e) => return Err(e),
    };
    let total = c.get_ref().len() as u64;
    let pos = c.position();
    if pos < total {
        return Err(MinecraftReadError::TrailingBytes { extra: total - pos });
    }
    Ok(v)
}

/// Decodes the contents of one frame as a packet `P`.
pub fn read_packet_contents<P: MinecraftPacket>(contents: Vec<u8>) -> (r: Result<P, MinecraftReadError>)
    ensures
        match packet_parse::<P>(contents@) {
            Ok(v) => r is Ok && r->Ok_0.deep_view() == v,
            Err(e) => r == Err::<P, MinecraftReadError>(e),
        },
{
    let mut c = Cursor::new(contents);
    assert(c.rest() =~= contents@);
    read_contents_from::<P>(&mut c)
}

/// Takes one frame from the cursor and gives back its contents.
pub fn read_frame(buffer: &mut Cursor) -> (r: Result<Vec<u8>, MinecraftReadError>)
    ensures
        final(buffer).data() == old(buffer).data(),
        match varint_parse(old(buffer).rest()) {
            Err(e) => r == Err::<Vec<u8>, MinecraftReadError>(e),
            Ok((len, n)) => if len < 0 {
                r == Err::<Vec<u8>, MinecraftReadError>(MinecraftReadError::NegativeLength { count: len })
            } else if old(buffer).rest().len() < n + len {
                r == Err::<Vec<u8>, MinecraftReadError>(MinecraftReadError::UnexpectedEof)
            } else {
                r is Ok && r->Ok_0@ == old(buffer).rest().subrange(n as int, n + len)
                    && final(buffer).pos() == old(buffer).pos() + n + len
                    && final(buffer).rest() == old(buffer).rest().skip(n + len)
            },
        },
{
    let ghost start = buffer.rest();
    let len = match i32::read_var_from(buffer) {
        Ok(len) => len,
        Err(e) => return Err(e),
    };
    if len < 0 {
        return Err(MinecraftReadError::NegativeLength { count: len });
    }
    let ghost n = (buffer.pos() - old(buffer).pos()) as nat;
    match buffer.read_exact(len as usize) {
        Some(contents) => {
            assert(contents@ =~= start.subrange(n as int, n + len));
            assert(buffer.rest() =~= start.skip(n + len));
            Ok(contents)
        },
        None => Err(MinecraftReadError::UnexpectedEof),
    }
}

/// Appends the frame holding `packet`: the body is encoded first, then the
/// length of id and body, the id and the body are written.
pub fn write_frame<P: MinecraftPacket>(packet: &P, out: &mut Vec<u8>) -> (r: Result<(), MinecraftWriteError>)
    ensures
        match frame_encode::<P>(packet.deep_view()) {
            Ok(bytes) => r is Ok && final(out)@ == old(out)@ + bytes,
            Err(e) => r == Err::<(), MinecraftWriteError>(e) && final(out)@ == old(out)@,
        },
{
    let mut body: Vec<u8> = Vec::new();
    match packet.write_to(&mut body) {
        Ok(()) => {},
        Err(e) => return Err(e),
    }
    assert(body@ =~= Seq::<u8>::empty() + body@);
    let mut id: Vec<u8> = Vec::new();
    let _ = P::get_id().write_var_to(&mut id);
    assert(id@ =~= Seq::<u8>::empty() + id@);
    let id_len = id.len();
    let body_len = body.len();
    if body_len > i32::MAX as usize || id_len > i32::MAX as usize - body_len {
        return Err(MinecraftWriteError::LengthOverflow { size: body_len as u64 });
    }
    let total = (id_len + body_len) as i32;
    let _ = total.write_var_to(out);
    push_bytes(out, id.as_slice());
    push_bytes(out, body.as_slice());
    assert(out@ =~= old(out)@ + (varint_wire(total) + (id@ + body@)));
    Ok(())
}

/// A byte source that packets can be read from.
pub trait MinecraftStreamRead {
    /// The bytes not yet read.
    spec fn unread(&self) -> Seq<u8>;

    /// Reads one frame holding a packet `P`.
    fn read_packet<P: MinecraftPacket>(&mut self) -> (r: Result<P, MinecraftReadError>)
        ensures
            match frame_parse::<P>(old(self).unread()) {
                Ok((v, n)) => r is Ok && r->Ok_0.deep_view() == v
                    && n <= old(self).unread().len()
                    && final(self).unread() == old(self).unread().skip(n as int),
                Err(e) => r == Err::<P, MinecraftReadError>(e),
            },
    ;
}

/// A byte sink that packets can be written to.
pub trait MinecraftStreamWrite {
    /// The bytes written so far.
    spec fn written(&self) -> Seq<u8>;

    /// Writes one frame holding `packet`; nothing is written on an error.
    fn write_packet<P: MinecraftPacket>(&mut self, packet: &P) -> (r: Result<(), MinecraftWriteError>)
        ensures
            match frame_encode::<P>(packet.deep_view()) {
                Ok(bytes) => r is Ok && final(self).written() == old(self).written() + bytes,
                Err(e) => r == Err::<(), MinecraftWriteError>(e) && final(self).written() == old(self).written(),
            },
    ;
}

/// A transport that packets can be read from.
pub trait MinecraftStream: MinecraftStreamRead {
}

impl MinecraftStreamRead for Cursor {
    open spec fn unread(&self) -> Seq<u8> {
        self.rest()
    }

    fn read_packet<P: MinecraftPacket>(&mut self) -> (r: Result<P, MinecraftReadError>) {
        let contents = match read_frame(self) {
            Ok(c) => c,
            Err(e) => return Err(e),
        };
        read_packet_contents::<P>(contents)
    }
}

impl MinecraftStream for Cursor {
}

impl MinecraftStreamWrite for Vec<u8> {
    open spec fn written(&self) -> Seq<u8> {
        self@
    }

    fn write_packet<P: MinecraftPacket>(&mut self, packet: &P) -> (r: Result<(), MinecraftWriteError>) {
        write_frame(packet, self)
    }
}

} // verus!
