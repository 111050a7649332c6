use vstd::prelude::*;

use crate::codec::{MinecraftCodecVar, MinecraftReadableVar, MinecraftWriteableVar};
use crate::cursor::Cursor;
use crate::error::{MinecraftReadError, MinecraftWriteError};

verus! {

/// The protocol's group encoding of a non-negative integer: seven bits per
/// byte, least significant group first, the high bit set on every byte but
/// the last.
pub open spec fn var_bytes(u: nat) -> Seq<u8>
    decreases u,
{
    if u < 128 {
        seq![u as u8]
    } else {
        seq![(u % 128 + 128) as u8] + var_bytes(u / 128)
    }
}

/// The VarInt encoding of `v`: the groups of its 32 bits as unsigned.
pub open spec fn varint_wire(v: i32) -> Seq<u8> {
    var_bytes((v as u32) as nat)
}

/// The VarLong encoding of `v`: the groups of its 64 bits as unsigned.
pub open spec fn varlong_wire(v: i64) -> Seq<u8> {
    var_bytes((v as u64) as nat)
}

/// Reading groups from the front of `b`, at most `limit` bytes: the sum of the
/// groups, each weighted by its place, and the number of bytes read. A read
/// that needs more than `limit` bytes fails with `too_long`; one that runs out
/// of bytes fails with `UnexpectedEof`.
pub open spec fn var_parse(b: Seq<u8>, limit: nat, too_long: MinecraftReadError) -> Result<
    (nat, nat),
    MinecraftReadError,
>
    decreases limit,
{
    if limit == 0 {
        Err(too_long)
    } else if b.len() == 0 {
        Err(MinecraftReadError::UnexpectedEof)
    } else if b[0] < 128 {
        Ok((b[0] as nat, 1))
    } else {
        match var_parse(b.skip(1), (limit - 1) as nat, too_long) {
            Ok((v, n)) => Ok(((b[0] - 128 + 128 * v) as nat, n + 1)),
            Err(e) => Err(e),
        }
    }
}

/// Decoding a VarInt from the front of `b`: the value and the bytes it took.
pub open spec fn varint_parse(b: Seq<u8>) -> Result<(i32, nat), MinecraftReadError> {
    match var_parse(b, 5, MinecraftReadError::InvalidVarInt) {
        Ok((u, n)) => Ok(((u as u32) as i32, n)),
        Err(e) => Err(e),
    }
}

/// Decoding a VarLong from the front of `b`: the value and the bytes it took.
pub open spec fn varlong_parse(b: Seq<u8>) -> Result<(i64, nat), MinecraftReadError> {
    match var_parse(b, 10, MinecraftReadError::InvalidVarLong) {
        Ok((u, n)) => Ok(((u as u64) as i64, n)),
        Err(e) => Err(e),
    }
}

/// Appends the group encoding of `u` to `out`.
fn write_var_bits(u: u64, out: &mut Vec<u8>)
    ensures
        final(out)@ == old(out)@ + var_bytes(u as nat),
{
    let mut x: u64 = u;
    while x >= 128
        invariant
            old(out)@ + var_bytes(u as nat) == out@ + var_bytes(x as nat),
        decreases x,
    {
        let ghost before = out@;
        let ghost prev = x as nat;
        out.push((x % 128 + 128) as u8);
        x = x / 128;
        assert(var_bytes(prev) == seq![(prev % 128 + 128) as u8] + var_bytes(x as nat));
        assert(before + var_bytes(prev) =~= out@ + var_bytes(x as nat));
    }
    out.push(x as u8);
    assert(out@ =~= old(out)@ + var_bytes(u as nat));
}

/// 128 to the power `n`.
pub open spec fn pow128(n: nat) -> nat
    decreases n,
{
    if n == 0 { 1 } else { 128 * pow128((n - 1) as nat) }
}

/// What a read of groups has found after `i` bytes, with `acc` the sum so far
/// and `place` the weight of the next group, given what the rest yields.
pub open spec fn var_resume(acc: nat, place: nat, i: nat, rest: Result<(nat, nat), MinecraftReadError>) -> Result<(nat, nat), MinecraftReadError> {
    match rest {
        Ok((v, n)) => Ok((acc + place * v, n + i)),
        Err(e) => Err(e),
    }
}

/// Reads groups from the cursor, at most `limit` bytes.
fn read_var_bits(c: &mut Cursor, limit: usize, too_long: MinecraftReadError) -> (r: Result<u128, MinecraftReadError>)
    requires
        limit <= 10,
    ensures
        final(c).data() == old(c).data(),
        match var_parse(old(c).rest(), limit as nat, too_long) {
            Ok((v, n)) => r is Ok && r->Ok_0 == v
                && n <= old(c).rest().len()
                && final(c).pos() == old(c).pos() + n
                && final(c).rest() == old(c).rest().skip(n as int),
            Err(e) => r == Err::<u128, MinecraftReadError>(e),
        },
{
    let ghost start = c.rest();
    let mut acc: u128 = 0;
    let mut place: u128 = 1;
    let mut i: usize = 0;
    loop
        invariant
            limit <= 10,
            i <= limit,
            c.data() == old(c).data(),
            start == old(c).rest(),
            i <= start.len(),
            c.rest() == start.skip(i as int),
            c.pos() == old(c).pos() + i,
            place == pow128(i as nat),
            acc < place,
            var_parse(start, limit as nat, too_long) == var_resume(
                acc as nat,
                place as nat,
                i as nat,
                var_parse(start.skip(i as int), (limit - i) as nat, too_long),
            ),
        decreases limit - i,
    {
        if i == limit {
            assert(var_parse(start.skip(i as int), 0, too_long) == Err::<(nat, nat), MinecraftReadError>(too_long));
            return Err(too_long);
        }
        proof {
            lemma_pow128_bound(i as nat);
        }
        let ghost here = c.rest();
        let b = match c.read_byte() {
            Some(b) => b,
            None => {
                assert(var_parse(here, (limit - i) as nat, too_long) == Err::<(nat, nat), MinecraftReadError>(MinecraftReadError::UnexpectedEof));
                return Err(MinecraftReadError::UnexpectedEof);
            }
        };
        assert(place * b <= place * 256) by (nonlinear_arith)
            requires
                b < 256,
        ;
        if b < 128 {
            proof {
                assert(here.skip(1) =~= start.skip(i + 1));
            }
            return Ok(acc + place * b as u128);
        }
        assert(place * (b - 128) <= place * 127) by (nonlinear_arith)
            requires
                b < 256, b >= 128, place >= 1,
        ;
        let ghost old_acc = acc as nat;
        let ghost old_place = place as nat;
        acc = acc + place * (b - 128) as u128;
        place = place * 128;
        i = i + 1;
        proof {
            assert(here.skip(1) =~= start.skip(i as int));
            assert(c.rest() =~= start.skip(i as int));
            let tail = var_parse(start.skip(i as int), (limit - i) as nat, too_long);
            assert(var_parse(here, (limit - i + 1) as nat, too_long) == match tail {
                Ok((v, n)) => Ok::<(nat, nat), MinecraftReadError>(((b - 128 + 128 * v) as nat, n + 1)),
                Err(e) => Err(e),
            });
            if tail is Ok {
                let v = tail->Ok_0.0;
                assert(old_acc + old_place * ((b - 128) + 128 * v) == (old_acc + old_place * (b - 128)) + (old_place * 128) * v) by (nonlinear_arith);
            }
        }
    }
}

proof fn lemma_pow128_bound(n: nat)
    requires
        n < 10,
    ensures
        pow128(n) * 256 <= 0x1_0000_0000_0000_0000_0000,
    decreases n,
{
    reveal_with_fuel(pow128, 10);
    lemma_pow128_mono(n, 9);
}

proof fn lemma_pow128_mono(a: nat, b: nat)
    requires
        a <= b,
    ensures
        pow128(a) <= pow128(b),
    decreases b,
{
    if a < b {
        lemma_pow128_mono(a, (b - 1) as nat);
    }
}

/// Reading the groups of `u` gives `u` back, and takes exactly its bytes.
pub proof fn lemma_var_round_trip(u: nat, limit: nat, too_long: MinecraftReadError, rest: Seq<u8>)
    requires
        var_bytes(u).len() <= limit,
    ensures
        var_parse(var_bytes(u) + rest, limit, too_long) == Ok::<(nat, nat), MinecraftReadError>((u, var_bytes(u).len())),
    decreases u,
{
    let b = var_bytes(u) + rest;
    if u < 128 {
        assert(b[0] == u as u8);
    } else {
        let h = u / 128;
        assert(var_bytes(u) == seq![(u % 128 + 128) as u8] + var_bytes(h));
        assert(b[0] == (u % 128 + 128) as u8);
        assert(b.skip(1) =~= var_bytes(h) + rest);
        lemma_var_round_trip(h, (limit - 1) as nat, too_long, rest);
    }
}

/// The groups of a value below `128` to the power `k` take at most `k` bytes.
pub proof fn lemma_var_len(u: nat, k: nat)
    requires
        k >= 1,
        u < pow128(k),
    ensures
        var_bytes(u).len() <= k,
    decreases u,
{
    if u >= 128 {
        if k == 1 {
            assert(pow128(1) == 128) by {
                reveal_with_fuel(pow128, 2);
            }
        }
        let p = pow128((k - 1) as nat);
        assert(u / 128 < p) by (nonlinear_arith)
            requires
                u < 128 * p,
        ;
        lemma_var_len(u / 128, (k - 1) as nat);
    }
}

impl MinecraftReadableVar for i32 {
    open spec fn parse_var(b: Seq<u8>) -> Result<(i32, nat), MinecraftReadError> {
        varint_parse(b)
    }

    fn read_var_from(buffer: &mut Cursor) -> (r: Result<i32, MinecraftReadError>) {
        let ghost start = buffer.rest();
        let r = read_var_bits(buffer, 5, MinecraftReadError::InvalidVarInt);
        assert(var_parse(start, 5, MinecraftReadError::InvalidVarInt) is Ok ==> r is Ok);
        match r {
            Ok(u) => {
                let v: i32 = #[verifier::truncate] ((#[verifier::truncate] (u as u32)) as i32);
                proof {
                    let (w, n) = var_parse(start, 5, MinecraftReadError::InvalidVarInt)->Ok_0;
                    assert(varint_parse(start) == Ok::<(i32, nat), MinecraftReadError>((v, n)));
                    assert(v.deep_view() == v);
                    assert(start == old(buffer).rest());
                    assert(<i32 as MinecraftReadableVar>::parse_var(old(buffer).rest()) == Ok::<(i32, nat), MinecraftReadError>((v, n)));
                    assert(n <= old(buffer).rest().len());
                    assert(buffer.pos() == old(buffer).pos() + n);
                }
                Ok(v)
            },
            Err(e) => Err(e),
        }
    }
}

impl MinecraftWriteableVar for i32 {
    open spec fn encode_var(v: i32) -> Result<Seq<u8>, MinecraftWriteError> {
        Ok(varint_wire(v))
    }

    fn write_var_to(&self, buffer: &mut Vec<u8>) -> (r: Result<(), MinecraftWriteError>) {
        let bits: u32 = #[verifier::truncate] (*self as u32);
        write_var_bits(bits as u64, buffer);
        assert(self.deep_view() == *self);
        assert(buffer@ == old(buffer)@ + varint_wire(*self));
        assert(<i32 as MinecraftWriteableVar>::encode_var(*self) == Ok::<Seq<u8>, MinecraftWriteError>(varint_wire(*self)));
        Ok(())
    }
}

impl MinecraftCodecVar for i32 {
    proof fn lemma_var_round_trip(v: i32, rest: Seq<u8>) {
        let u = (v as u32) as nat;
        assert(pow128(5) == 0x8_0000_0000) by {
            reveal_with_fuel(pow128, 6);
        }
        lemma_var_len(u, 5);
        lemma_var_round_trip(u, 5, MinecraftReadError::InvalidVarInt, rest);
        assert((v as u32) as i32 == v) by (bit_vector);
    }
}

impl MinecraftReadableVar for i64 {
    open spec fn parse_var(b: Seq<u8>) -> Result<(i64, nat), MinecraftReadError> {
        varlong_parse(b)
    }

    fn read_var_from(buffer: &mut Cursor) -> (r: Result<i64, MinecraftReadError>) {
        match read_var_bits(buffer, 10, MinecraftReadError::InvalidVarLong) {
            Ok(u) => Ok(#[verifier::truncate] ((#[verifier::truncate] (u as u64)) as i64)),
            Err(e) => Err(e),
        }
    }
}

impl MinecraftWriteableVar for i64 {
    open spec fn encode_var(v: i64) -> Result<Seq<u8>, MinecraftWriteError> {
        Ok(varlong_wire(v))
    }

    fn write_var_to(&self, buffer: &mut Vec<u8>) -> (r: Result<(), MinecraftWriteError>) {
        write_var_bits(*self as u64, buffer);
        Ok(())
    }
}

impl MinecraftCodecVar for i64 {
    proof fn lemma_var_round_trip(v: i64, rest: Seq<u8>) {
        let u = (v as u64) as nat;
        assert(pow128(10) == 0x40_0000_0000_0000_0000) by {
            reveal_with_fuel(pow128, 11);
        }
        lemma_var_len(u, 10);
        lemma_var_round_trip(u, 10, MinecraftReadError::InvalidVarLong, rest);
        assert((v as u64) as i64 == v) by (bit_vector);
    }
}

} // verus!
