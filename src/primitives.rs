use vstd::prelude::*;

use crate::codec::{MinecraftCodec, MinecraftReadable, MinecraftWriteable};
use crate::cursor::Cursor;
use crate::error::{MinecraftReadError, MinecraftWriteError};
use crate::fixed::{be_bytes, fixed_parse, lemma_be_round_trip, pow256, read_be, write_be};

verus! {

// Fixed-width integers: big-endian, two's complement for the signed ones.

impl MinecraftReadable for bool {
    /// Any byte but zero reads as `true`.
    open spec fn parse(b: Seq<u8>) -> Result<(bool, nat), MinecraftReadError> {
        if b.len() == 0 {
            Err(MinecraftReadError::UnexpectedEof)
        } else {
            Ok((b[0] != 0, 1))
        }
    }

    fn read_from(buffer: &mut Cursor) -> (r: Result<bool, MinecraftReadError>) {
        match buffer.read_byte() {
            Some(x) => Ok(x != 0),
            None => Err(MinecraftReadError::UnexpectedEof),
        }
    }
}

impl MinecraftWriteable for bool {
    /// `true` is written as one, `false` as zero.
    open spec fn encode(v: bool) -> Result<Seq<u8>, MinecraftWriteError> {
        Ok(seq![if v { 1u8 } else { 0u8 }])
    }

    fn write_to(&self, buffer: &mut Vec<u8>) -> (r: Result<(), MinecraftWriteError>) {
        buffer.push(if *self { 1u8 } else { 0u8 });
        Ok(())
    }
}

impl MinecraftCodec for bool {
    proof fn lemma_round_trip(v: bool, rest: Seq<u8>) {
        let b = seq![if v { 1u8 } else { 0u8 }] + rest;
        assert(b[0] == if v { 1u8 } else { 0u8 });
    }
}

impl MinecraftReadable for u8 {
    open spec fn parse(b: Seq<u8>) -> Result<(u8, nat), MinecraftReadError> {
        match fixed_parse(b, 1) {
            Some(x) => Ok((x as u8, 1)),
            None => Err(MinecraftReadError::UnexpectedEof),
        }
    }

    fn read_from(buffer: &mut Cursor) -> (r: Result<u8, MinecraftReadError>) {
        proof {
            reveal_with_fuel(pow256, 2);
        }
        match read_be(buffer, 1) {
            Some(x) => Ok(x as u8),
            None => Err(MinecraftReadError::UnexpectedEof),
        }
    }
}

impl MinecraftWriteable for u8 {
    open spec fn encode(v: u8) -> Result<Seq<u8>, MinecraftWriteError> {
        Ok(be_bytes(v as u128, 1))
    }

    fn write_to(&self, buffer: &mut Vec<u8>) -> (r: Result<(), MinecraftWriteError>) {
        write_be(*self as u128, 1, buffer);
        Ok(())
    }
}

impl MinecraftCodec for u8 {
    proof fn lemma_round_trip(v: u8, rest: Seq<u8>) {
        reveal_with_fuel(pow256, 2);
        lemma_be_round_trip(v as u128, 1, rest);
    }
}

impl MinecraftReadable for u16 {
    open spec fn parse(b: Seq<u8>) -> Result<(u16, nat), MinecraftReadError> {
        match fixed_parse(b, 2) {
            Some(x) => Ok((x as u16, 2)),
            None => Err(MinecraftReadError::UnexpectedEof),
        }
    }

    fn read_from(buffer: &mut Cursor) -> (r: Result<u16, MinecraftReadError>) {
        proof {
            reveal_with_fuel(pow256, 3);
        }
        match read_be(buffer, 2) {
            Some(x) => Ok(x as u16),
            None => Err(MinecraftReadError::UnexpectedEof),
        }
    }
}

impl MinecraftWriteable for u16 {
    open spec fn encode(v: u16) -> Result<Seq<u8>, MinecraftWriteError> {
        Ok(be_bytes(v as u128, 2))
    }

    fn write_to(&self, buffer: &mut Vec<u8>) -> (r: Result<(), MinecraftWriteError>) {
        write_be(*self as u128, 2, buffer);
        Ok(())
    }
}

impl MinecraftCodec for u16 {
    proof fn lemma_round_trip(v: u16, rest: Seq<u8>) {
        reveal_with_fuel(pow256, 3);
        lemma_be_round_trip(v as u128, 2, rest);
    }
}

impl MinecraftReadable for u32 {
    open spec fn parse(b: Seq<u8>) -> Result<(u32, nat), MinecraftReadError> {
        match fixed_parse(b, 4) {
            Some(x) => Ok((x as u32, 4)),
            None => Err(MinecraftReadError::UnexpectedEof),
        }
    }

    fn read_from(buffer: &mut Cursor) -> (r: Result<u32, MinecraftReadError>) {
        proof {
            reveal_with_fuel(pow256, 5);
        }
        match read_be(buffer, 4) {
            Some(x) => Ok(x as u32),
            None => Err(MinecraftReadError::UnexpectedEof),
        }
    }
}

impl MinecraftWriteable for u32 {
    open spec fn encode(v: u32) -> Result<Seq<u8>, MinecraftWriteError> {
        Ok(be_bytes(v as u128, 4))
    }

    fn write_to(&self, buffer: &mut Vec<u8>) -> (r: Result<(), MinecraftWriteError>) {
        write_be(*self as u128, 4, buffer);
        Ok(())
    }
}

impl MinecraftCodec for u32 {
    proof fn lemma_round_trip(v: u32, rest: Seq<u8>) {
        reveal_with_fuel(pow256, 5);
        lemma_be_round_trip(v as u128, 4, rest);
    }
}

impl MinecraftReadable for u64 {
    open spec fn parse(b: Seq<u8>) -> Result<(u64, nat), MinecraftReadError> {
        match fixed_parse(b, 8) {
            Some(x) => Ok((x as u64, 8)),
            None => Err(MinecraftReadError::UnexpectedEof),
        }
    }

    fn read_from(buffer: &mut Cursor) -> (r: Result<u64, MinecraftReadError>) {
        proof {
            reveal_with_fuel(pow256, 9);
        }
        match read_be(buffer, 8) {
            Some(x) => Ok(x as u64),
            None => Err(MinecraftReadError::UnexpectedEof),
        }
    }
}

impl MinecraftWriteable for u64 {
    open spec fn encode(v: u64) -> Result<Seq<u8>, MinecraftWriteError> {
        Ok(be_bytes(v as u128, 8))
    }

    fn write_to(&self, buffer: &mut Vec<u8>) -> (r: Result<(), MinecraftWriteError>) {
        write_be(*self as u128, 8, buffer);
        Ok(())
    }
}

impl MinecraftCodec for u64 {
    proof fn lemma_round_trip(v: u64, rest: Seq<u8>) {
        reveal_with_fuel(pow256, 9);
        lemma_be_round_trip(v as u128, 8, rest);
    }
}

impl MinecraftReadable for u128 {
    open spec fn parse(b: Seq<u8>) -> Result<(u128, nat), MinecraftReadError> {
        match fixed_parse(b, 16) {
            Some(x) => Ok((x as u128, 16)),
            None => Err(MinecraftReadError::UnexpectedEof),
        }
    }

    fn read_from(buffer: &mut Cursor) -> (r: Result<u128, MinecraftReadError>) {
        proof {
            reveal_with_fuel(pow256, 17);
        }
        match read_be(buffer, 16) {
            Some(x) => Ok(x as u128),
            None => Err(MinecraftReadError::UnexpectedEof),
        }
    }
}

impl MinecraftWriteable for u128 {
    open spec fn encode(v: u128) -> Result<Seq<u8>, MinecraftWriteError> {
        Ok(be_bytes(v as u128, 16))
    }

    fn write_to(&self, buffer: &mut Vec<u8>) -> (r: Result<(), MinecraftWriteError>) {
        write_be(*self as u128, 16, buffer);
        Ok(())
    }
}

impl MinecraftCodec for u128 {
    proof fn lemma_round_trip(v: u128, rest: Seq<u8>) {
        reveal_with_fuel(pow256, 17);
        lemma_be_round_trip(v as u128, 16, rest);
    }
}

impl MinecraftReadable for i8 {
    open spec fn parse(b: Seq<u8>) -> Result<(i8, nat), MinecraftReadError> {
        match fixed_parse(b, 1) {
            Some(x) => Ok(((x as u8) as i8, 1)),
            None => Err(MinecraftReadError::UnexpectedEof),
        }
    }

    fn read_from(buffer: &mut Cursor) -> (r: Result<i8, MinecraftReadError>) {
        proof {
            reveal_with_fuel(pow256, 2);
        }
        match read_be(buffer, 1) {
            Some(x) => Ok((x as u8) as i8),
            None => Err(MinecraftReadError::UnexpectedEof),
        }
    }
}

impl MinecraftWriteable for i8 {
    open spec fn encode(v: i8) -> Result<Seq<u8>, MinecraftWriteError> {
        Ok(be_bytes((v as u8) as u128, 1))
    }

    fn write_to(&self, buffer: &mut Vec<u8>) -> (r: Result<(), MinecraftWriteError>) {
        write_be((*self as u8) as u128, 1, buffer);
        Ok(())
    }
}

impl MinecraftCodec for i8 {
    proof fn lemma_round_trip(v: i8, rest: Seq<u8>) {
        reveal_with_fuel(pow256, 2);
        lemma_be_round_trip((v as u8) as u128, 1, rest);
        assert((v as u8) as i8 == v) by (bit_vector);
    }
}

impl MinecraftReadable for i16 {
    open spec fn parse(b: Seq<u8>) -> Result<(i16, nat), MinecraftReadError> {
        match fixed_parse(b, 2) {
            Some(x) => Ok(((x as u16) as i16, 2)),
            None => Err(MinecraftReadError::UnexpectedEof),
        }
    }

    fn read_from(buffer: &mut Cursor) -> (r: Result<i16, MinecraftReadError>) {
        proof {
            reveal_with_fuel(pow256, 3);
        }
        match read_be(buffer, 2) {
            Some(x) => Ok((x as u16) as i16),
            None => Err(MinecraftReadError::UnexpectedEof),
        }
    }
}

impl MinecraftWriteable for i16 {
    open spec fn encode(v: i16) -> Result<Seq<u8>, MinecraftWriteError> {
        Ok(be_bytes((v as u16) as u128, 2))
    }

    fn write_to(&self, buffer: &mut Vec<u8>) -> (r: Result<(), MinecraftWriteError>) {
        write_be((*self as u16) as u128, 2, buffer);
        Ok(())
    }
}

impl MinecraftCodec for i16 {
    proof fn lemma_round_trip(v: i16, rest: Seq<u8>) {
        reveal_with_fuel(pow256, 3);
        lemma_be_round_trip((v as u16) as u128, 2, rest);
        assert((v as u16) as i16 == v) by (bit_vector);
    }
}

impl MinecraftReadable for i32 {
    open spec fn parse(b: Seq<u8>) -> Result<(i32, nat), MinecraftReadError> {
        match fixed_parse(b, 4) {
            Some(x) => Ok(((x as u32) as i32, 4)),
            None => Err(MinecraftReadError::UnexpectedEof),
        }
    }

    fn read_from(buffer: &mut Cursor) -> (r: Result<i32, MinecraftReadError>) {
        proof {
            reveal_with_fuel(pow256, 5);
        }
        match read_be(buffer, 4) {
            Some(x) => Ok((x as u32) as i32),
            None => Err(MinecraftReadError::UnexpectedEof),
        }
    }
}

impl MinecraftWriteable for i32 {
    open spec fn encode(v: i32) -> Result<Seq<u8>, MinecraftWriteError> {
        Ok(be_bytes((v as u32) as u128, 4))
    }

    fn write_to(&self, buffer: &mut Vec<u8>) -> (r: Result<(), MinecraftWriteError>) {
        write_be((*self as u32) as u128, 4, buffer);
        Ok(())
    }
}

impl MinecraftCodec for i32 {
    proof fn lemma_round_trip(v: i32, rest: Seq<u8>) {
        reveal_with_fuel(pow256, 5);
        lemma_be_round_trip((v as u32) as u128, 4, rest);
        assert((v as u32) as i32 == v) by (bit_vector);
    }
}

impl MinecraftReadable for i64 {
    open spec fn parse(b: Seq<u8>) -> Result<(i64, nat), MinecraftReadError> {
        match fixed_parse(b, 8) {
            Some(x) => Ok(((x as u64) as i64, 8)),
            None => Err(MinecraftReadError::UnexpectedEof),
        }
    }

    fn read_from(buffer: &mut Cursor) -> (r: Result<i64, MinecraftReadError>) {
        proof {
            reveal_with_fuel(pow256, 9);
        }
        match read_be(buffer, 8) {
            Some(x) => Ok((x as u64) as i64),
            None => Err(MinecraftReadError::UnexpectedEof),
        }
    }
}

impl MinecraftWriteable for i64 {
    open spec fn encode(v: i64) -> Result<Seq<u8>, MinecraftWriteError> {
        Ok(be_bytes((v as u64) as u128, 8))
    }

    fn write_to(&self, buffer: &mut Vec<u8>) -> (r: Result<(), MinecraftWriteError>) {
        write_be((*self as u64) as u128, 8, buffer);
        Ok(())
    }
}

impl MinecraftCodec for i64 {
    proof fn lemma_round_trip(v: i64, rest: Seq<u8>) {
        reveal_with_fuel(pow256, 9);
        lemma_be_round_trip((v as u64) as u128, 8, rest);
        assert((v as u64) as i64 == v) by (bit_vector);
    }
}

impl MinecraftReadable for i128 {
    open spec fn parse(b: Seq<u8>) -> Result<(i128, nat), MinecraftReadError> {
        match fixed_parse(b, 16) {
            Some(x) => Ok(((x as u128) as i128, 16)),
            None => Err(MinecraftReadError::UnexpectedEof),
        }
    }

    fn read_from(buffer: &mut Cursor) -> (r: Result<i128, MinecraftReadError>) {
        proof {
            reveal_with_fuel(pow256, 17);
        }
        match read_be(buffer, 16) {
            Some(x) => Ok((x as u128) as i128),
            None => Err(MinecraftReadError::UnexpectedEof),
        }
    }
}

impl MinecraftWriteable for i128 {
    open spec fn encode(v: i128) -> Result<Seq<u8>, MinecraftWriteError> {
        Ok(be_bytes((v as u128) as u128, 16))
    }

    fn write_to(&self, buffer: &mut Vec<u8>) -> (r: Result<(), MinecraftWriteError>) {
        write_be((*self as u128) as u128, 16, buffer);
        Ok(())
    }
}

impl MinecraftCodec for i128 {
    proof fn lemma_round_trip(v: i128, rest: Seq<u8>) {
        reveal_with_fuel(pow256, 17);
        lemma_be_round_trip((v as u128) as u128, 16, rest);
        assert((v as u128) as i128 == v) by (bit_vector);
    }
}

} // verus!
