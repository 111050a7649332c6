use vstd::prelude::*;

use crate::cursor::Cursor;
use crate::error::{MinecraftReadError, MinecraftWriteError};

verus! {

/// A type with a wire decoding.
///
/// `parse` states what a read yields on any bytes: the value's model and the
/// number of bytes it takes from the front, or the error.
pub trait MinecraftReadable: DeepView + Sized {
    /// Decoding from the front of `b`.
    spec fn parse(b: Seq<u8>) -> Result<(Self::V, nat), MinecraftReadError>;

    /// Decodes one value from the cursor and moves past it.
    fn read_from(buffer: &mut Cursor) -> (r: Result<Self, MinecraftReadError>)
        ensures
            final(buffer).data() == old(buffer).data(),
            match Self::parse(old(buffer).rest()) {
                Ok((v, n)) => r is Ok && r->Ok_0.deep_view() == v
                    && n <= old(buffer).rest().len()
                    && final(buffer).pos() == old(buffer).pos() + n
                    && final(buffer).rest() == old(buffer).rest().skip(n as int),
                Err(e) => r == Err::<Self, MinecraftReadError>(e),
            },
    ;
}

/// A type with a wire encoding.
///
/// `encode` states the bytes of a value's model, or why it has none.
pub trait MinecraftWriteable: DeepView + Sized {
    /// The encoding of `v`.
    spec fn encode(v: Self::V) -> Result<Seq<u8>, MinecraftWriteError>;

    /// Appends the encoding of `self`; on an error, what was appended is
    /// unspecified.
    fn write_to(&self, buffer: &mut Vec<u8>) -> (r: Result<(), MinecraftWriteError>)
        ensures
            match Self::encode(self.deep_view()) {
                Ok(bytes) => r is Ok && final(buffer)@ == old(buffer)@ + bytes,
                Err(e) => r == Err::<(), MinecraftWriteError>(e),
            },
    ;
}

/// A type whose decoding reads back its encoding.
pub trait MinecraftCodec: MinecraftReadable + MinecraftWriteable {
    /// Decoding an encoded value gives the value back and takes exactly its
    /// bytes, whatever follows them.
    proof fn lemma_round_trip(v: <Self as DeepView>::V, rest: Seq<u8>)
        requires
            Self::encode(v) is Ok,
        ensures
            Self::parse(Self::encode(v)->Ok_0 + rest) == Ok::<(<Self as DeepView>::V, nat), MinecraftReadError>((v, Self::encode(v)->Ok_0.len())),
    ;
}

/// A type with a variable-length wire decoding (VarInt, VarLong).
pub trait MinecraftReadableVar: DeepView + Sized {
    /// Variable-length decoding from the front of `b`.
    spec fn parse_var(b: Seq<u8>) -> Result<(Self::V, nat), MinecraftReadError>;

    /// Decodes one variable-length value from the cursor and moves past it.
    fn read_var_from(buffer: &mut Cursor) -> (r: Result<Self, MinecraftReadError>)
        ensures
            final(buffer).data() == old(buffer).data(),
            match Self::parse_var(old(buffer).rest()) {
                Ok((v, n)) => r is Ok && r->Ok_0.deep_view() == v
                    && n <= old(buffer).rest().len()
                    && final(buffer).pos() == old(buffer).pos() + n
                    && final(buffer).rest() == old(buffer).rest().skip(n as int),
                Err(e) => r == Err::<Self, MinecraftReadError>(e),
            },
    ;
}

/// A type with a variable-length wire encoding (VarInt, VarLong).
pub trait MinecraftWriteableVar: DeepView + Sized {
    /// The variable-length encoding of `v`.
    spec fn encode_var(v: Self::V) -> Result<Seq<u8>, MinecraftWriteError>;

    /// Appends the variable-length encoding of `self`.
    fn write_var_to(&self, buffer: &mut Vec<u8>) -> (r: Result<(), MinecraftWriteError>)
        ensures
            match Self::encode_var(self.deep_view()) {
                Ok(bytes) => r is Ok && final(buffer)@ == old(buffer)@ + bytes,
                Err(e) => r == Err::<(), MinecraftWriteError>(e),
            },
    ;
}

/// A type whose variable-length decoding reads back its variable-length
/// encoding.
pub trait MinecraftCodecVar: MinecraftReadableVar + MinecraftWriteableVar {
    /// Decoding an encoded value gives the value back and takes exactly its
    /// bytes, whatever follows them.
    proof fn lemma_var_round_trip(v: <Self as DeepView>::V, rest: Seq<u8>)
        requires
            Self::encode_var(v) is Ok,
        ensures
            Self::parse_var(Self::encode_var(v)->Ok_0 + rest) == Ok::<(<Self as DeepView>::V, nat), MinecraftReadError>((v, Self::encode_var(v)->Ok_0.len())),
    ;
}

} // verus!
