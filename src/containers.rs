use vstd::prelude::*;

use crate::codec::{
    MinecraftCodec, MinecraftCodecVar, MinecraftReadable, MinecraftReadableVar,
    MinecraftWriteable, MinecraftWriteableVar,
};
use crate::cursor::Cursor;
use crate::error::{MinecraftReadError, MinecraftWriteError};
use crate::varint::{varint_parse, varint_wire};

verus! {

// Optional values: a presence flag, then the value if the flag is set.
impl<T: MinecraftReadable> MinecraftReadable for Option<T> {
    open spec fn parse(b: Seq<u8>) -> Result<(Option<T::V>, nat), MinecraftReadError> {
        match <bool as MinecraftReadable>::parse(b) {
            Err(e) => Err(e),
            Ok((present, n)) => if !present {
                Ok((None, n))
            } else {
                match T::parse(b.skip(n as int)) {
                    Ok((v, m)) => Ok((Some(v), n + m)),
                    Err(e) => Err(e),
                }
            },
        }
    }

    fn read_from(buffer: &mut Cursor) -> (r: Result<Option<T>, MinecraftReadError>) {
        let ghost start = buffer.rest();
        let present = match bool::read_from(buffer) {
            Ok(p) => p,
            Err(e) => return Err(e),
        };
        if !present {
            return Ok(None);
        }
        match T::read_from(buffer) {
            Ok(v) => {
                assert(buffer.rest() =~= start.skip(buffer.pos() - old(buffer).pos()));
                Ok(Some(v))
            },
            Err(e) => Err(e),
        }
    }
}

impl<T: MinecraftWriteable> MinecraftWriteable for Option<T> {
    open spec fn encode(v: Option<T::V>) -> Result<Seq<u8>, MinecraftWriteError> {
        match v {
            None => Ok(seq![0u8]),
            Some(x) => match T::encode(x) {
                Ok(bytes) => Ok(seq![1u8] + bytes),
                Err(e) => Err(e),
            },
        }
    }

    fn write_to(&self, buffer: &mut Vec<u8>) -> (r: Result<(), MinecraftWriteError>) {
        match self {
            None => {
                buffer.push(0u8);
                Ok(())
            },
            Some(x) => {
                buffer.push(1u8);
                let r = x.write_to(buffer);
                proof {
                    if T::encode(x.deep_view()) is Ok {
                        assert(buffer@ =~= old(buffer)@ + (seq![1u8] + T::encode(x.deep_view())->Ok_0));
                    }
                }
                r
            },
        }
    }
}

impl<T: MinecraftCodec> MinecraftCodec for Option<T> {
    proof fn lemma_round_trip(v: Option<T::V>, rest: Seq<u8>) {
        match v {
            None => {
                assert((seq![0u8] + rest)[0] == 0u8);
            },
            Some(x) => {
                let bytes = T::encode(x)->Ok_0;
                let b = seq![1u8] + bytes + rest;
                assert(b[0] == 1u8);
                assert(seq![1u8] + bytes + rest =~= seq![1u8] + (bytes + rest));
                assert(b.skip(1) =~= bytes + rest);
                T::lemma_round_trip(x, rest);
            },
        }
    }
}

// Sequences: a VarInt element count, then the elements in order.

/// Decoding `k` values one after another from the front of `b`.
#[verifier::opaque]
pub open spec fn parse_items<T: MinecraftReadable>(b: Seq<u8>, k: nat) -> Result<(Seq<T::V>, nat), MinecraftReadError>
    decreases k,
{
    if k == 0 {
        Ok((Seq::empty(), 0))
    } else {
        match T::parse(b) {
            Err(e) => Err(e),
            Ok((v, n)) => match parse_items::<T>(b.skip(n as int), (k - 1) as nat) {
                Ok((vs, m)) => Ok((seq![v] + vs, n + m)),
                Err(e) => Err(e),
            },
        }
    }
}

/// The encodings of `vs`, one after another; the first error, if any.
#[verifier::opaque]
pub open spec fn encode_items<T: MinecraftWriteable>(vs: Seq<T::V>) -> Result<Seq<u8>, MinecraftWriteError>
    decreases vs.len(),
{
    if vs.len() == 0 {
        Ok(Seq::empty())
    } else {
        match T::encode(vs[0]) {
            Err(e) => Err(e),
            Ok(x) => match encode_items::<T>(vs.skip(1)) {
                Ok(y) => Ok(x + y),
                Err(e) => Err(e),
            },
        }
    }
}

/// What a read of items has found, with `done` read so far in `used` bytes,
/// given what the rest yields.
pub open spec fn items_resume<V>(done: Seq<V>, used: nat, rest: Result<(Seq<V>, nat), MinecraftReadError>) -> Result<(Seq<V>, nat), MinecraftReadError> {
    match rest {
        Ok((vs, m)) => Ok((done + vs, used + m)),
        Err(e) => Err(e),
    }
}

/// What a write of items gives, with `done` written so far, given what the
/// rest gives.
pub open spec fn bytes_resume(done: Seq<u8>, rest: Result<Seq<u8>, MinecraftWriteError>) -> Result<Seq<u8>, MinecraftWriteError> {
    match rest {
        Ok(y) => Ok(done + y),
        Err(e) => Err(e),
    }
}

impl<T: MinecraftReadable> MinecraftReadable for Vec<T> {
    /// A negative count is refused.
    open spec fn parse(b: Seq<u8>) -> Result<(Seq<T::V>, nat), MinecraftReadError> {
        match varint_parse(b) {
            Err(e) => Err(e),
            Ok((count, n)) => if count < 0 {
                Err(MinecraftReadError::NegativeLength { count })
            } else {
                match parse_items::<T>(b.skip(n as int), count as nat) {
                    Ok((vs, m)) => Ok((vs, n + m)),
                    Err(e) => Err(e),
                }
            },
        }
    }

    fn read_from(buffer: &mut Cursor) -> (r: Result<Vec<T>, MinecraftReadError>) {
        proof {
            reveal(parse_items);
        }
        let ghost start = buffer.rest();
        let count = match i32::read_var_from(buffer) {
            Ok(c) => c,
            Err(e) => return Err(e),
        };
        if count < 0 {
            return Err(MinecraftReadError::NegativeLength { count });
        }
        let ghost n = (buffer.pos() - old(buffer).pos()) as nat;
        let ghost items = buffer.rest();
        let mut out: Vec<T> = Vec::new();
        let mut i: i32 = 0;
        let ghost mut used: nat = 0;
        assert(items.skip(0) =~= items);
        assert(out.deep_view() =~= Seq::<T::V>::empty());
        proof {
            match parse_items::<T>(items, count as nat) {
                Ok((vs, k)) => assert(Seq::<T::V>::empty() + vs =~= vs),
                Err(_) => {},
            }
        }
        while i < count
            invariant
                0 <= i <= count,
                buffer.data() == old(buffer).data(),
                start == old(buffer).rest(),
                varint_parse(start) == Ok::<(i32, nat), MinecraftReadError>((count, n)),
                items == start.skip(n as int),
                n <= start.len(),
                used <= items.len(),
                buffer.rest() == items.skip(used as int),
                buffer.pos() == old(buffer).pos() + n + used,
                out@.len() == i,
                parse_items::<T>(items, count as nat) == items_resume(
                    out.deep_view(),
                    used,
                    parse_items::<T>(items.skip(used as int), (count - i) as nat),
                ),
            decreases count - i,
        {
            proof {
                reveal(parse_items);
            }
            let ghost here = buffer.rest();
            let v = match T::read_from(buffer) {
                Ok(v) => v,
                Err(e) => {
                    assert(parse_items::<T>(here, (count - i) as nat) == Err::<(Seq<T::V>, nat), MinecraftReadError>(e));
                    assert(parse_items::<T>(items, count as nat) == Err::<(Seq<T::V>, nat), MinecraftReadError>(e));
                    return Err(e);
                },
            };
            let ghost m = (buffer.pos() - old(buffer).pos() - n - used) as nat;
            let ghost before = out.deep_view();
            out.push(v);
            i = i + 1;
            proof {
                assert(out.deep_view() =~= before.push(v.deep_view()));
                assert(here.skip(m as int) =~= items.skip((used + m) as int));
                assert(buffer.rest() =~= items.skip((used + m) as int));
                let tail = parse_items::<T>(items.skip((used + m) as int), (count - i) as nat);
                match tail {
                    Ok((vs, k)) => {
                        assert(before + (seq![v.deep_view()] + vs) =~= before.push(v.deep_view()) + vs);
                    },
                    Err(_) => {},
                }
                used = used + m;
            }
        }
        proof {
            assert(out.deep_view() + Seq::<T::V>::empty() =~= out.deep_view());
            assert(buffer.rest() =~= start.skip((n + used) as int));
        }
        Ok(out)
    }
}

impl<T: MinecraftWriteable> MinecraftWriteable for Vec<T> {
    /// A count that does not fit a VarInt is refused.
    open spec fn encode(vs: Seq<T::V>) -> Result<Seq<u8>, MinecraftWriteError> {
        if vs.len() > i32::MAX {
            Err(MinecraftWriteError::LengthOverflow { size: vs.len() as u64 })
        } else {
            match encode_items::<T>(vs) {
                Ok(bytes) => Ok(varint_wire(vs.len() as i32) + bytes),
                Err(e) => Err(e),
            }
        }
    }

    fn write_to(&self, buffer: &mut Vec<u8>) -> (r: Result<(), MinecraftWriteError>) {
        proof {
            reveal(encode_items);
        }
        let len = self.len();
        if len > i32::MAX as usize {
            return Err(MinecraftWriteError::LengthOverflow { size: len as u64 });
        }
        let _ = (len as i32).write_var_to(buffer);
        let ghost prefix = buffer@;
        let ghost dv = self.deep_view();
        let mut i: usize = 0;
        assert(buffer@.skip(prefix.len() as int) =~= Seq::<u8>::empty());
        assert(buffer@ =~= prefix + Seq::<u8>::empty());
        assert(dv.skip(0) =~= dv);
        proof {
            match encode_items::<T>(dv) {
                Ok(y) => assert(Seq::<u8>::empty() + y =~= y),
                Err(_) => {},
            }
        }
        while i < len
            invariant
                len == self@.len(),
                len <= i32::MAX,
                dv == self.deep_view(),
                i <= len,
                prefix == old(buffer)@ + varint_wire(len as i32),
                prefix.len() <= buffer@.len(),
                encode_items::<T>(dv) == bytes_resume(
                    buffer@.skip(prefix.len() as int),
                    encode_items::<T>(dv.skip(i as int)),
                ),
                buffer@ == prefix + buffer@.skip(prefix.len() as int),
            decreases len - i,
        {
            proof {
                reveal(encode_items);
            }
            let ghost done = buffer@.skip(prefix.len() as int);
            assert(dv.skip(i as int)[0] == self@[i as int].deep_view());
            assert(dv.skip(i as int).skip(1) =~= dv.skip(i + 1));
            match self[i].write_to(buffer) {
                Ok(()) => {},
                Err(e) => {
                    assert(encode_items::<T>(dv.skip(i as int)) == Err::<Seq<u8>, MinecraftWriteError>(e));
                    assert(encode_items::<T>(dv) == Err::<Seq<u8>, MinecraftWriteError>(e));
                    return Err(e);
                },
            }
            i = i + 1;
            proof {
                let x = T::encode(self@[i - 1].deep_view())->Ok_0;
                assert(buffer@.skip(prefix.len() as int) =~= done + x);
                assert(buffer@ =~= prefix + buffer@.skip(prefix.len() as int));
                match encode_items::<T>(dv.skip(i as int)) {
                    Ok(y) => {
                        assert(done + (x + y) =~= (done + x) + y);
                    },
                    Err(_) => {},
                }
            }
        }
        proof {
            assert(dv.skip(len as int) =~= Seq::<T::V>::empty());
            let done = buffer@.skip(prefix.len() as int);
            assert(done + Seq::<u8>::empty() =~= done);
            assert(buffer@ =~= old(buffer)@ + (varint_wire(len as i32) + done));
        }
        Ok(())
    }
}

/// Decoding `vs.len()` values from their encodings gives `vs` back and takes
/// exactly those bytes.
pub proof fn lemma_items_round_trip<T: MinecraftCodec>(vs: Seq<T::V>, rest: Seq<u8>)
    requires
        encode_items::<T>(vs) is Ok,
    ensures
        parse_items::<T>(encode_items::<T>(vs)->Ok_0 + rest, vs.len()) == Ok::<(Seq<T::V>, nat), MinecraftReadError>((vs, encode_items::<T>(vs)->Ok_0.len())),
    decreases vs.len(),
{
    reveal(parse_items);
    reveal(encode_items);
    if vs.len() > 0 {
        let x = T::encode(vs[0])->Ok_0;
        let y = encode_items::<T>(vs.skip(1))->Ok_0;
        assert(encode_items::<T>(vs)->Ok_0 == x + y);
        lemma_items_round_trip::<T>(vs.skip(1), rest);
        T::lemma_round_trip(vs[0], y + rest);
        assert(x + y + rest =~= x + (y + rest));
        assert((x + (y + rest)).skip(x.len() as int) =~= y + rest);
        assert(seq![vs[0]] + vs.skip(1) =~= vs);
        assert(parse_items::<T>(x + (y + rest), vs.len()) == Ok::<(Seq<T::V>, nat), MinecraftReadError>((seq![vs[0]] + vs.skip(1), x.len() + y.len())));
    } else {
        assert(encode_items::<T>(vs)->Ok_0 =~= Seq::<u8>::empty());
        assert(vs =~= Seq::<T::V>::empty());
    }
}

impl<T: MinecraftCodec> MinecraftCodec for Vec<T> {
    proof fn lemma_round_trip(vs: Seq<T::V>, rest: Seq<u8>) {
        let bytes = encode_items::<T>(vs)->Ok_0;
        let count = vs.len() as i32;
        <i32 as MinecraftCodecVar>::lemma_var_round_trip(count, bytes + rest);
        lemma_items_round_trip::<T>(vs, rest);
        assert(varint_wire(count) + bytes + rest =~= varint_wire(count) + (bytes + rest));
        assert((varint_wire(count) + (bytes + rest)).skip(varint_wire(count).len() as int) =~= bytes + rest);
    }
}

// Optional variable-length values: a presence flag, then the value's
// variable-length encoding if the flag is set.
impl<T: MinecraftReadableVar> MinecraftReadableVar for Option<T> {
    open spec fn parse_var(b: Seq<u8>) -> Result<(Option<T::V>, nat), MinecraftReadError> {
        match <bool as MinecraftReadable>::parse(b) {
            Err(e) => Err(e),
            Ok((present, n)) => if !present {
                Ok((None, n))
            } else {
                match T::parse_var(b.skip(n as int)) {
                    Ok((v, m)) => Ok((Some(v), n + m)),
                    Err(e) => Err(e),
                }
            },
        }
    }

    fn read_var_from(buffer: &mut Cursor) -> (r: Result<Option<T>, MinecraftReadError>) {
        let ghost start = buffer.rest();
        let present = match bool::read_from(buffer) {
            Ok(p) => p,
            Err(e) => return Err(e),
        };
        if !present {
            return Ok(None);
        }
        match T::read_var_from(buffer) {
            Ok(v) => {
                assert(buffer.rest() =~= start.skip(buffer.pos() - old(buffer).pos()));
                Ok(Some(v))
            },
            Err(e) => Err(e),
        }
    }
}

impl<T: MinecraftWriteableVar> MinecraftWriteableVar for Option<T> {
    open spec fn encode_var(v: Option<T::V>) -> Result<Seq<u8>, MinecraftWriteError> {
        match v {
            None => Ok(seq![0u8]),
            Some(x) => match T::encode_var(x) {
                Ok(bytes) => Ok(seq![1u8] + bytes),
                Err(e) => Err(e),
            },
        }
    }

    fn write_var_to(&self, buffer: &mut Vec<u8>) -> (r: Result<(), MinecraftWriteError>) {
        match self {
            None => {
                buffer.push(0u8);
                Ok(())
            },
            Some(x) => {
                buffer.push(1u8);
                let r = x.write_var_to(buffer);
                proof {
                    if T::encode_var(x.deep_view()) is Ok {
                        assert(buffer@ =~= old(buffer)@ + (seq![1u8] + T::encode_var(x.deep_view())->Ok_0));
                    }
                }
                r
            },
        }
    }
}

impl<T: MinecraftCodecVar> MinecraftCodecVar for Option<T> {
    proof fn lemma_var_round_trip(v: Option<T::V>, rest: Seq<u8>) {
        match v {
            None => {
                assert((seq![0u8] + rest)[0] == 0u8);
            },
            Some(x) => {
                let bytes = T::encode_var(x)->Ok_0;
                let b = seq![1u8] + bytes + rest;
                assert(b[0] == 1u8);
                assert(seq![1u8] + bytes + rest =~= seq![1u8] + (bytes + rest));
                assert(b.skip(1) =~= bytes + rest);
                T::lemma_var_round_trip(x, rest);
            },
        }
    }
}

// Sequences of variable-length values: a VarInt element count, then the
// elements' variable-length encodings in order.

/// Decoding `k` variable-length values one after another from the front of `b`.
#[verifier::opaque]
pub open spec fn parse_items_var<T: MinecraftReadableVar>(b: Seq<u8>, k: nat) -> Result<(Seq<T::V>, nat), MinecraftReadError>
    decreases k,
{
    if k == 0 {
        Ok((Seq::empty(), 0))
    } else {
        match T::parse_var(b) {
            Err(e) => Err(e),
            Ok((v, n)) => match parse_items_var::<T>(b.skip(n as int), (k - 1) as nat) {
                Ok((vs, m)) => Ok((seq![v] + vs, n + m)),
                Err(e) => Err(e),
            },
        }
    }
}

/// The variable-length encodings of `vs`, one after another; the first error, if any.
#[verifier::opaque]
pub open spec fn encode_items_var<T: MinecraftWriteableVar>(vs: Seq<T::V>) -> Result<Seq<u8>, MinecraftWriteError>
    decreases vs.len(),
{
    if vs.len() == 0 {
        Ok(Seq::empty())
    } else {
        match T::encode_var(vs[0]) {
            Err(e) => Err(e),
            Ok(x) => match encode_items_var::<T>(vs.skip(1)) {
                Ok(y) => Ok(x + y),
                Err(e) => Err(e),
            },
        }
    }
}

impl<T: MinecraftReadableVar> MinecraftReadableVar for Vec<T> {
    /// A negative count is refused.
    open spec fn parse_var(b: Seq<u8>) -> Result<(Seq<T::V>, nat), MinecraftReadError> {
        match varint_parse(b) {
            Err(e) => Err(e),
            Ok((count, n)) => if count < 0 {
                Err(MinecraftReadError::NegativeLength { count })
            } else {
                match parse_items_var::<T>(b.skip(n as int), count as nat) {
                    Ok((vs, m)) => Ok((vs, n + m)),
                    Err(e) => Err(e),
                }
            },
        }
    }

    fn read_var_from(buffer: &mut Cursor) -> (r: Result<Vec<T>, MinecraftReadError>) {
        proof {
            reveal(parse_items_var);
        }
        let ghost start = buffer.rest();
        let count = match i32::read_var_from(buffer) {
            Ok(c) => c,
            Err(e) => return Err(e),
        };
        if count < 0 {
            return Err(MinecraftReadError::NegativeLength { count });
        }
        let ghost n = (buffer.pos() - old(buffer).pos()) as nat;
        let ghost items = buffer.rest();
        let mut out: Vec<T> = Vec::new();
        let mut i: i32 = 0;
        let ghost mut used: nat = 0;
        assert(items.skip(0) =~= items);
        assert(out.deep_view() =~= Seq::<T::V>::empty());
        proof {
            match parse_items_var::<T>(items, count as nat) {
                Ok((vs, k)) => assert(Seq::<T::V>::empty() + vs =~= vs),
                Err(_) => {},
            }
        }
        while i < count
            invariant
                0 <= i <= count,
                buffer.data() == old(buffer).data(),
                start == old(buffer).rest(),
                varint_parse(start) == Ok::<(i32, nat), MinecraftReadError>((count, n)),
                items == start.skip(n as int),
                n <= start.len(),
                used <= items.len(),
                buffer.rest() == items.skip(used as int),
                buffer.pos() == old(buffer).pos() + n + used,
                out@.len() == i,
                parse_items_var::<T>(items, count as nat) == items_resume(
                    out.deep_view(),
                    used,
                    parse_items_var::<T>(items.skip(used as int), (count - i) as nat),
                ),
            decreases count - i,
        {
            proof {
                reveal(parse_items_var);
            }
            let ghost here = buffer.rest();
            let v = match T::read_var_from(buffer) {
                Ok(v) => v,
                Err(e) => {
                    assert(parse_items_var::<T>(here, (count - i) as nat) == Err::<(Seq<T::V>, nat), MinecraftReadError>(e));
                    assert(parse_items_var::<T>(items, count as nat) == Err::<(Seq<T::V>, nat), MinecraftReadError>(e));
                    return Err(e);
                },
            };
            let ghost m = (buffer.pos() - old(buffer).pos() - n - used) as nat;
            let ghost before = out.deep_view();
            out.push(v);
            i = i + 1;
            proof {
                assert(out.deep_view() =~= before.push(v.deep_view()));
                assert(here.skip(m as int) =~= items.skip((used + m) as int));
                assert(buffer.rest() =~= items.skip((used + m) as int));
                let tail = parse_items_var::<T>(items.skip((used + m) as int), (count - i) as nat);
                match tail {
                    Ok((vs, k)) => {
                        assert(before + (seq![v.deep_view()] + vs) =~= before.push(v.deep_view()) + vs);
                    },
                    Err(_) => {},
                }
                used = used + m;
            }
        }
        proof {
            assert(out.deep_view() + Seq::<T::V>::empty() =~= out.deep_view());
            assert(buffer.rest() =~= start.skip((n + used) as int));
        }
        Ok(out)
    }
}

impl<T: MinecraftWriteableVar> MinecraftWriteableVar for Vec<T> {
    /// A count that does not fit a VarInt is refused.
    open spec fn encode_var(vs: Seq<T::V>) -> Result<Seq<u8>, MinecraftWriteError> {
        if vs.len() > i32::MAX {
            Err(MinecraftWriteError::LengthOverflow { size: vs.len() as u64 })
        } else {
            match encode_items_var::<T>(vs) {
                Ok(bytes) => Ok(varint_wire(vs.len() as i32) + bytes),
                Err(e) => Err(e),
            }
        }
    }

    fn write_var_to(&self, buffer: &mut Vec<u8>) -> (r: Result<(), MinecraftWriteError>) {
        proof {
            reveal(encode_items_var);
        }
        let len = self.len();
        if len > i32::MAX as usize {
            return Err(MinecraftWriteError::LengthOverflow { size: len as u64 });
        }
        let _ = (len as i32).write_var_to(buffer);
        let ghost prefix = buffer@;
        let ghost dv = self.deep_view();
        let mut i: usize = 0;
        assert(buffer@.skip(prefix.len() as int) =~= Seq::<u8>::empty());
        assert(buffer@ =~= prefix + Seq::<u8>::empty());
        assert(dv.skip(0) =~= dv);
        proof {
            match encode_items_var::<T>(dv) {
                Ok(y) => assert(Seq::<u8>::empty() + y =~= y),
                Err(_) => {},
            }
        }
        while i < len
            invariant
                len == self@.len(),
                len <= i32::MAX,
                dv == self.deep_view(),
                i <= len,
                prefix == old(buffer)@ + varint_wire(len as i32),
                prefix.len() <= buffer@.len(),
                encode_items_var::<T>(dv) == bytes_resume(
                    buffer@.skip(prefix.len() as int),
                    encode_items_var::<T>(dv.skip(i as int)),
                ),
                buffer@ == prefix + buffer@.skip(prefix.len() as int),
            decreases len - i,
        {
            proof {
                reveal(encode_items_var);
            }
            let ghost done = buffer@.skip(prefix.len() as int);
            assert(dv.skip(i as int)[0] == self@[i as int].deep_view());
            assert(dv.skip(i as int).skip(1) =~= dv.skip(i + 1));
            match self[i].write_var_to(buffer) {
                Ok(()) => {},
                Err(e) => {
                    assert(encode_items_var::<T>(dv.skip(i as int)) == Err::<Seq<u8>, MinecraftWriteError>(e));
                    assert(encode_items_var::<T>(dv) == Err::<Seq<u8>, MinecraftWriteError>(e));
                    return Err(e);
                },
            }
            i = i + 1;
            proof {
                let x = T::encode_var(self@[i - 1].deep_view())->Ok_0;
                assert(buffer@.skip(prefix.len() as int) =~= done + x);
                assert(buffer@ =~= prefix + buffer@.skip(prefix.len() as int));
                match encode_items_var::<T>(dv.skip(i as int)) {
                    Ok(y) => {
                        assert(done + (x + y) =~= (done + x) + y);
                    },
                    Err(_) => {},
                }
            }
        }
        proof {
            assert(dv.skip(len as int) =~= Seq::<T::V>::empty());
            let done = buffer@.skip(prefix.len() as int);
            assert(done + Seq::<u8>::empty() =~= done);
            assert(buffer@ =~= old(buffer)@ + (varint_wire(len as i32) + done));
        }
        Ok(())
    }
}

/// Decoding `vs.len()` variable-length values from their encodings gives `vs` back and takes
/// exactly those bytes.
pub proof fn lemma_items_var_round_trip<T: MinecraftCodecVar>(vs: Seq<T::V>, rest: Seq<u8>)
    requires
        encode_items_var::<T>(vs) is Ok,
    ensures
        parse_items_var::<T>(encode_items_var::<T>(vs)->Ok_0 + rest, vs.len()) == Ok::<(Seq<T::V>, nat), MinecraftReadError>((vs, encode_items_var::<T>(vs)->Ok_0.len())),
    decreases vs.len(),
{
    reveal(parse_items_var);
    reveal(encode_items_var);
    if vs.len() > 0 {
        let x = T::encode_var(vs[0])->Ok_0;
        let y = encode_items_var::<T>(vs.skip(1))->Ok_0;
        assert(encode_items_var::<T>(vs)->Ok_0 == x + y);
        lemma_items_var_round_trip::<T>(vs.skip(1), rest);
        T::lemma_var_round_trip(vs[0], y + rest);
        assert(x + y + rest =~= x + (y + rest));
        assert((x + (y + rest)).skip(x.len() as int) =~= y + rest);
        assert(seq![vs[0]] + vs.skip(1) =~= vs);
        assert(parse_items_var::<T>(x + (y + rest), vs.len()) == Ok::<(Seq<T::V>, nat), MinecraftReadError>((seq![vs[0]] + vs.skip(1), x.len() + y.len())));
    } else {
        assert(encode_items_var::<T>(vs)->Ok_0 =~= Seq::<u8>::empty());
        assert(vs =~= Seq::<T::V>::empty());
    }
}

impl<T: MinecraftCodecVar> MinecraftCodecVar for Vec<T> {
    proof fn lemma_var_round_trip(vs: Seq<T::V>, rest: Seq<u8>) {
        let bytes = encode_items_var::<T>(vs)->Ok_0;
        let count = vs.len() as i32;
        <i32 as MinecraftCodecVar>::lemma_var_round_trip(count, bytes + rest);
        lemma_items_var_round_trip::<T>(vs, rest);
        assert(varint_wire(count) + bytes + rest =~= varint_wire(count) + (bytes + rest));
        assert((varint_wire(count) + (bytes + rest)).skip(varint_wire(count).len() as int) =~= bytes + rest);
    }
}


} // verus!
