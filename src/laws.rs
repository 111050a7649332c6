use vstd::prelude::*;

use crate::codec::{MinecraftCodec, MinecraftCodecVar, MinecraftReadable, MinecraftWriteable};
use crate::cursor::{lemma_skip_front, lemma_skip_skip};
use crate::error::MinecraftReadError;
use crate::stream::{frame_encode, frame_parse, packet_parse, MinecraftPacket};
use crate::varint::{var_bytes, var_parse, varint_parse, varint_wire, varlong_parse, varlong_wire};

verus! {

broadcast use {lemma_skip_skip, lemma_skip_front};

/// Decoding what was encoded, and encoding it again, gives back exactly the
/// bytes the decoding took.
pub proof fn lemma_reencode<T: MinecraftCodec>(v: T::V, rest: Seq<u8>)
    requires
        T::encode(v) is Ok,
    ensures
        ({
            let b = T::encode(v)->Ok_0 + rest;
            &&& T::parse(b) is Ok
            &&& T::encode(T::parse(b)->Ok_0.0) == Ok::<Seq<u8>, crate::error::MinecraftWriteError>(b.take(T::parse(b)->Ok_0.1 as int))
        }),
{
    T::lemma_round_trip(v, rest);
    let bytes = T::encode(v)->Ok_0;
    assert((bytes + rest).take(bytes.len() as int) =~= bytes);
}

/// A frame reads back as the packet it was written from and takes exactly
/// its bytes; its leading VarInt is the length of the encoded id and body
/// that follow.
pub proof fn lemma_frame_round_trip<P: MinecraftPacket>(v: P::V, rest: Seq<u8>)
    requires
        frame_encode::<P>(v) is Ok,
    ensures
        ({
            let frame = frame_encode::<P>(v)->Ok_0;
            let contents = varint_wire(P::id_spec()) + P::encode(v)->Ok_0;
            &&& frame == varint_wire(contents.len() as i32) + contents
            &&& varint_parse(frame + rest) == Ok::<(i32, nat), MinecraftReadError>((contents.len() as i32, varint_wire(contents.len() as i32).len()))
            &&& frame_parse::<P>(frame + rest) == Ok::<(P::V, nat), MinecraftReadError>((v, frame.len()))
        }),
{
    let body = P::encode(v)->Ok_0;
    let id = varint_wire(P::id_spec());
    let contents = id + body;
    let len = contents.len() as i32;
    let prefix = varint_wire(len);
    let frame = prefix + contents;
    <i32 as MinecraftCodecVar>::lemma_var_round_trip(len, contents + rest);
    assert(frame + rest =~= prefix + (contents + rest));
    let n = prefix.len();
    assert((frame + rest).subrange(n as int, n + len) =~= contents);
    <i32 as MinecraftCodecVar>::lemma_var_round_trip(P::id_spec(), body);
    P::lemma_round_trip(v, Seq::empty());
    assert(body + Seq::<u8>::empty() =~= body);
    assert(packet_parse::<P>(contents) == Ok::<P::V, MinecraftReadError>(v));
}

/// Whether `b` starts with a VarInt in canonical form: no group of zero bits
/// at its end, and a value that fits 32 bits.
pub open spec fn varint_canonical(b: Seq<u8>) -> bool {
    match var_parse(b, 5, MinecraftReadError::InvalidVarInt) {
        Ok((u, n)) => (n == 1 || b[n - 1] != 0) && u < 0x1_0000_0000,
        Err(_) => false,
    }
}

/// Whether `b` starts with a VarLong in canonical form: no group of zero bits
/// at its end, and a value that fits 64 bits.
pub open spec fn varlong_canonical(b: Seq<u8>) -> bool {
    match var_parse(b, 10, MinecraftReadError::InvalidVarLong) {
        Ok((u, n)) => (n == 1 || b[n - 1] != 0) && u < 0x1_0000_0000_0000_0000,
        Err(_) => false,
    }
}

proof fn lemma_var_parse_len(b: Seq<u8>, limit: nat, too_long: MinecraftReadError)
    requires
        var_parse(b, limit, too_long) is Ok,
    ensures
        ({
            let n = var_parse(b, limit, too_long)->Ok_0.1;
            &&& 1 <= n <= b.len()
            &&& (n == 1 <==> b[0] < 128)
        }),
    decreases limit,
{
    if b[0] >= 128 {
        lemma_var_parse_len(b.skip(1), (limit - 1) as nat, too_long);
    }
}

/// Groups read without a trailing zero group are the groups of the value
/// they sum to.
pub proof fn lemma_var_canonical(b: Seq<u8>, limit: nat, too_long: MinecraftReadError)
    requires
        var_parse(b, limit, too_long) is Ok,
        ({
            let n = var_parse(b, limit, too_long)->Ok_0.1;
            n == 1 || b[n - 1] != 0
        }),
    ensures
        ({
            let (u, n) = var_parse(b, limit, too_long)->Ok_0;
            &&& var_bytes(u) == b.take(n as int)
            &&& (n > 1 ==> u >= 128)
        }),
    decreases limit,
{
    let (u, n) = var_parse(b, limit, too_long)->Ok_0;
    if b[0] < 128 {
        assert(b.take(1) =~= seq![b[0]]);
    } else {
        let t = b.skip(1);
        let (w, m) = var_parse(t, (limit - 1) as nat, too_long)->Ok_0;
        lemma_var_parse_len(t, (limit - 1) as nat, too_long);
        assert(t[m - 1] == b[n - 1]);
        lemma_var_canonical(t, (limit - 1) as nat, too_long);
        if m == 1 {
            assert(w == t[0] as nat);
            assert(w >= 1);
        }
        assert(u == (b[0] - 128) + 128 * w);
        assert(u % 128 == b[0] - 128 && u / 128 == w) by (nonlinear_arith)
            requires
                u == (b[0] - 128) + 128 * w,
                0 <= b[0] - 128 < 128,
        ;
        assert(b.take(n as int) =~= seq![b[0]] + t.take(m as int));
    }
}

/// A canonical VarInt encodes again to exactly the bytes it was decoded from.
pub proof fn lemma_varint_canonical(b: Seq<u8>)
    requires
        varint_canonical(b),
    ensures
        varint_parse(b) is Ok,
        varint_wire(varint_parse(b)->Ok_0.0) == b.take(varint_parse(b)->Ok_0.1 as int),
{
    lemma_var_canonical(b, 5, MinecraftReadError::InvalidVarInt);
    let (u, n) = var_parse(b, 5, MinecraftReadError::InvalidVarInt)->Ok_0;
    let x = u as u32;
    assert(x == u);
    assert(((x as i32) as u32) == x) by (bit_vector);
}

/// A canonical VarLong encodes again to exactly the bytes it was decoded
/// from.
pub proof fn lemma_varlong_canonical(b: Seq<u8>)
    requires
        varlong_canonical(b),
    ensures
        varlong_parse(b) is Ok,
        varlong_wire(varlong_parse(b)->Ok_0.0) == b.take(varlong_parse(b)->Ok_0.1 as int),
{
    lemma_var_canonical(b, 10, MinecraftReadError::InvalidVarLong);
    let (u, n) = var_parse(b, 10, MinecraftReadError::InvalidVarLong)->Ok_0;
    let x = u as u64;
    assert(x == u);
    assert(((x as i64) as u64) == x) by (bit_vector);
}

/// A boolean byte of zero or one encodes again to itself.
pub proof fn lemma_bool_canonical(b: Seq<u8>)
    requires
        b.len() >= 1,
        b[0] <= 1,
    ensures
        <bool as MinecraftReadable>::parse(b) is Ok,
        <bool as MinecraftWriteable>::encode(<bool as MinecraftReadable>::parse(b)->Ok_0.0) == Ok::<Seq<u8>, crate::error::MinecraftWriteError>(b.take(1)),
{
    assert(b.take(1) =~= seq![b[0]]);
}

} // verus!
