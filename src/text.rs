use vstd::prelude::*;
use vstd::utf8::{decode_utf8, encode_utf8, valid_utf8};

use crate::codec::{
    MinecraftCodec, MinecraftCodecVar, MinecraftReadable, MinecraftReadableVar,
    MinecraftWriteable, MinecraftWriteableVar,
};
use crate::cursor::Cursor;
use crate::error::{MinecraftReadError, MinecraftWriteError};
use crate::varint::{varint_parse, varint_wire};

verus! {

broadcast use vstd::utf8::group_utf8_lib;

/// The most UTF-8 bytes a string field without a declared maximum may
/// declare on read: 32767 characters of up to four bytes, and three more.
pub const MAX_STRING_READ_BYTES: u32 = 32767 * 4 + 3;

/// The most UTF-8 bytes a string field without a declared maximum may hold on
/// write.
pub const MAX_STRING_WRITE_BYTES: u32 = 32767;

/// Decoding a string of at most `max` UTF-8 bytes from the front of `b`: a
/// VarInt byte length, then that many bytes of UTF-8.
pub open spec fn string_parse(b: Seq<u8>, max: u32) -> Result<(Seq<char>, nat), MinecraftReadError> {
    match varint_parse(b) {
        Err(e) => Err(e),
        Ok((len, n)) => if len < 0 || len > max {
            Err(MinecraftReadError::StringTooLong { length: len as i64, max_length: max })
        } else if b.len() < n + len {
            Err(MinecraftReadError::UnexpectedEof)
        } else if !valid_utf8(b.subrange(n as int, n + len)) {
            Err(MinecraftReadError::InvalidUtf8)
        } else {
            Ok((decode_utf8(b.subrange(n as int, n + len)), n + len as nat))
        },
    }
}

/// The encoding of a string of at most `max` UTF-8 bytes: its byte length as
/// a VarInt, then its UTF-8 bytes.
pub open spec fn string_encode(s: Seq<char>, max: u32) -> Result<Seq<u8>, MinecraftWriteError> {
    let bytes = encode_utf8(s);
    if bytes.len() > max {
        Err(MinecraftWriteError::StringTooLong { length: bytes.len() as i64, max_length: max })
    } else {
        Ok(varint_wire(bytes.len() as i32) + bytes)
    }
}

/// Relies on `String::from_utf8`: it accepts exactly the byte sequences that
/// are UTF-8, and the string it builds holds the characters they encode.
#[verifier::external_body]
fn string_from_utf8(bytes: Vec<u8>) -> (r: Option<String>)
    ensures
        r is Some <==> valid_utf8(bytes@),
        r matches Some(s) ==> s@ == decode_utf8(bytes@),
{
    String::from_utf8(bytes).ok()
}

/// Appends the bytes of `src` to `out`.
pub fn push_bytes(out: &mut Vec<u8>, src: &[u8])
    ensures
        final(out)@ == old(out)@ + src@,
{
    let mut i: usize = 0;
    while i < src.len()
        invariant
            i <= src@.len(),
            out@ == old(out)@ + src@.take(i as int),
        decreases src@.len() - i,
    {
        out.push(src[i]);
        i = i + 1;
        assert(out@ =~= old(out)@ + src@.take(i as int));
    }
    assert(src@.take(i as int) =~= src@);
}

/// Reads a string of at most `max` UTF-8 bytes.
pub fn read_string(buffer: &mut Cursor, max: u32) -> (r: Result<String, MinecraftReadError>)
    ensures
        final(buffer).data() == old(buffer).data(),
        match string_parse(old(buffer).rest(), max) {
            Ok((s, n)) => r is Ok && r->Ok_0@ == s
                && n <= old(buffer).rest().len()
                && final(buffer).pos() == old(buffer).pos() + n
                && final(buffer).rest() == old(buffer).rest().skip(n as int),
            Err(e) => r == Err::<String, MinecraftReadError>(e),
        },
{
    let ghost start = buffer.rest();
    let len = match i32::read_var_from(buffer) {
        Ok(len) => len,
        Err(e) => return Err(e),
    };
    let ghost n = (buffer.pos() - old(buffer).pos()) as nat;
    if len < 0 || len as u32 > max {
        return Err(MinecraftReadError::StringTooLong { length: len as i64, max_length: max });
    }
    let bytes = match buffer.read_exact(len as usize) {
        Some(b) => b,
        None => return Err(MinecraftReadError::UnexpectedEof),
    };
    assert(bytes@ =~= start.subrange(n as int, n + len));
    assert(buffer.rest() =~= start.skip(n + len));
    match string_from_utf8(bytes) {
        Some(s) => Ok(s),
        None => Err(MinecraftReadError::InvalidUtf8),
    }
}

/// Writes a string of at most `max` UTF-8 bytes.
pub fn write_string(s: &str, max: u32, buffer: &mut Vec<u8>) -> (r: Result<(), MinecraftWriteError>)
    requires
        max <= i32::MAX,
    ensures
        match string_encode(s@, max) {
            Ok(bytes) => r is Ok && final(buffer)@ == old(buffer)@ + bytes,
            Err(e) => r == Err::<(), MinecraftWriteError>(e) && final(buffer)@ == old(buffer)@,
        },
{
    let bytes = s.as_bytes();
    if bytes.len() > max as usize {
        return Err(MinecraftWriteError::StringTooLong { length: bytes.len() as i64, max_length: max });
    }
    let len = bytes.len() as i32;
    let _ = len.write_var_to(buffer);
    push_bytes(buffer, bytes);
    assert(buffer@ =~= old(buffer)@ + (varint_wire(len) + encode_utf8(s@)));
    Ok(())
}

/// A string of at most `max` UTF-8 bytes reads back as written, taking
/// exactly its bytes.
pub proof fn lemma_string_round_trip(s: Seq<char>, max: u32, rest: Seq<u8>)
    requires
        max <= i32::MAX,
        string_encode(s, max) is Ok,
    ensures
        string_parse(string_encode(s, max)->Ok_0 + rest, max) == Ok::<(Seq<char>, nat), MinecraftReadError>((s, string_encode(s, max)->Ok_0.len())),
{
    let bytes = encode_utf8(s);
    let len = bytes.len() as i32;
    let b = varint_wire(len) + bytes + rest;
    <i32 as MinecraftCodecVar>::lemma_var_round_trip(len, bytes + rest);
    assert(varint_wire(len) + bytes + rest =~= varint_wire(len) + (bytes + rest));
    let n = varint_wire(len).len();
    assert(b.subrange(n as int, n + len) =~= bytes);
}

impl MinecraftReadable for String {
    /// A string field without a declared maximum.
    open spec fn parse(b: Seq<u8>) -> Result<(Seq<char>, nat), MinecraftReadError> {
        string_parse(b, MAX_STRING_READ_BYTES)
    }

    fn read_from(buffer: &mut Cursor) -> (r: Result<String, MinecraftReadError>) {
        read_string(buffer, MAX_STRING_READ_BYTES)
    }
}

impl MinecraftWriteable for String {
    /// A string field without a declared maximum.
    open spec fn encode(v: Seq<char>) -> Result<Seq<u8>, MinecraftWriteError> {
        string_encode(v, MAX_STRING_WRITE_BYTES)
    }

    fn write_to(&self, buffer: &mut Vec<u8>) -> (r: Result<(), MinecraftWriteError>) {
        write_string(self.as_str(), MAX_STRING_WRITE_BYTES, buffer)
    }
}

impl MinecraftCodec for String {
    proof fn lemma_round_trip(v: Seq<char>, rest: Seq<u8>) {
        lemma_string_round_trip(v, MAX_STRING_WRITE_BYTES, rest);
        let bytes = encode_utf8(v);
        let len = bytes.len() as i32;
        <i32 as MinecraftCodecVar>::lemma_var_round_trip(len, bytes + rest);
        assert(varint_wire(len) + bytes + rest =~= varint_wire(len) + (bytes + rest));
    }
}

} // verus!
