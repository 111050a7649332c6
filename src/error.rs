use vstd::prelude::*;

verus! {

/// Why bytes could not be decoded.
#[derive(Debug, Clone, Copy, PartialEq, Eq, Structural)]
pub enum MinecraftReadError {
    /// A VarInt still had its continuation bit set after five bytes.
    InvalidVarInt,
    /// A VarLong still had its continuation bit set after ten bytes.
    InvalidVarLong,
    /// A string's declared byte length was negative or above the field's maximum.
    StringTooLong { length: i64, max_length: u32 },
    /// A discriminant matched no case of the enum it encodes.
    UnexpectedEnumVariant,
    /// A frame carried another packet than the one expected.
    PacketIdMismatch { expected: i32, got: i32 },
    /// The bytes ended before the value did.
    UnexpectedEof,
    /// The bytes of a string were not UTF-8.
    InvalidUtf8,
    /// A sequence declared a negative element count.
    NegativeLength { count: i32 },
    /// A frame held bytes after the packet's last field.
    TrailingBytes { extra: u64 },
}

/// Why a value could not be encoded.
#[derive(Debug, Clone, Copy, PartialEq, Eq, Structural)]
pub enum MinecraftWriteError {
    /// A VarInt could not be encoded.
    InvalidVarInt,
    /// A VarLong could not be encoded.
    InvalidVarLong,
    /// A string's UTF-8 length is above the field's maximum.
    StringTooLong { length: i64, max_length: u32 },
    /// A value has no encoding in the enum's set of discriminants.
    UnexpectedEnumVariant,
    /// A sequence or frame is too long for its VarInt length prefix.
    LengthOverflow { size: u64 },
}

} // verus!
