use vstd::prelude::*;

use crate::cursor::Cursor;

verus! {

/// `n` bytes of `u`, most significant first: byte `i` holds bits
/// `8 * (n - 1 - i)` and up.
pub open spec fn be_bytes(u: u128, n: nat) -> Seq<u8> {
    Seq::new(n, |i: int| (u >> (8 * (n - 1 - i)) as u128) as u8)
}

/// The unsigned value of bytes read most significant first.
pub open spec fn be_value(b: Seq<u8>) -> nat
    decreases b.len(),
{
    if b.len() == 0 {
        0
    } else {
        be_value(b.drop_last()) * 256 + b.last() as nat
    }
}

/// Appends the `n` low bytes of `u`, most significant first.
pub fn write_be(u: u128, n: usize, out: &mut Vec<u8>)
    requires
        n <= 16,
    ensures
        final(out)@ == old(out)@ + be_bytes(u, n as nat),
{
    let mut i: usize = 0;
    while i < n
        invariant
            n <= 16,
            i <= n,
            out@ == old(out)@ + be_bytes(u, n as nat).take(i as int),
        decreases n - i,
    {
        let shift: u128 = (8 * (n - 1 - i)) as u128;
        out.push((u >> shift) as u8);
        i = i + 1;
        assert(out@ =~= old(out)@ + be_bytes(u, n as nat).take(i as int));
    }
    assert(be_bytes(u, n as nat).take(n as int) =~= be_bytes(u, n as nat));
}

/// Takes `n` bytes and reads them as an unsigned value, most significant
/// first; `None`, with nothing taken, where fewer are left.
pub fn read_be(c: &mut Cursor, n: usize) -> (r: Option<u128>)
    requires
        n <= 16,
    ensures
        final(c).data() == old(c).data(),
        old(c).rest().len() < n ==> r is None && final(c).pos() == old(c).pos(),
        old(c).rest().len() >= n ==> r == Some(be_value(old(c).rest().take(n as int)) as u128)
            && be_value(old(c).rest().take(n as int)) < pow256(n as nat)
            && final(c).pos() == old(c).pos() + n
            && final(c).rest() == old(c).rest().skip(n as int),
{
    let bytes = match c.read_exact(n) {
        Some(b) => b,
        None => return None,
    };
    let mut acc: u128 = 0;
    let mut i: usize = 0;
    while i < n
        invariant
            n <= 16,
            i <= n,
            bytes@.len() == n,
            acc == be_value(bytes@.take(i as int)),
            acc < pow256(i as nat),
        decreases n - i,
    {
        proof {
            lemma_pow256_bound(i as nat);
            assert(bytes@.take(i + 1).drop_last() =~= bytes@.take(i as int));
        }
        acc = acc * 256 + bytes[i] as u128;
        i = i + 1;
    }
    assert(bytes@.take(n as int) =~= bytes@);
    Some(acc)
}

/// 256 to the power `n`.
pub open spec fn pow256(n: nat) -> nat
    decreases n,
{
    if n == 0 { 1 } else { 256 * pow256((n - 1) as nat) }
}

proof fn lemma_pow256_bound(n: nat)
    requires
        n < 16,
    ensures
        pow256(n) * 256 <= 0x1_0000_0000_0000_0000_0000_0000_0000_0000,
    decreases n,
{
    if n > 0 {
        lemma_pow256_bound((n - 1) as nat);
    }
    reveal_with_fuel(pow256, 16);
    assert(pow256(15) * 256 == 0x1_0000_0000_0000_0000_0000_0000_0000_0000);
    lemma_pow256_mono(n, 15);
}

proof fn lemma_pow256_mono(a: nat, b: nat)
    requires
        a <= b,
    ensures
        pow256(a) <= pow256(b),
    decreases b,
{
    if a < b {
        lemma_pow256_mono(a, (b - 1) as nat);
    }
}

/// Reading `n` fixed-width bytes from the front of `b`.
pub open spec fn fixed_parse(b: Seq<u8>, n: nat) -> Option<nat> {
    if b.len() < n {
        None
    } else {
        Some(be_value(b.take(n as int)))
    }
}

proof fn lemma_shr_shr(u: u128, s: u128)
    requires
        s <= 112,
    ensures
        (u >> 8u128) >> s == u >> (s + 8),
{
    assert((u >> 8u128) >> s == u >> (s + 8)) by (bit_vector)
        requires
            s <= 112,
    ;
}

/// Bytes written most significant first read back as the value written.
pub proof fn lemma_be_round_trip(u: u128, n: nat, rest: Seq<u8>)
    requires
        n <= 16,
        u < pow256(n),
    ensures
        fixed_parse(be_bytes(u, n) + rest, n) == Some(u as nat),
        be_bytes(u, n).len() == n,
{
    assert((be_bytes(u, n) + rest).take(n as int) =~= be_bytes(u, n));
    lemma_be_value(u, n);
}

proof fn lemma_be_value(u: u128, n: nat)
    requires
        n <= 16,
        u < pow256(n),
    ensures
        be_value(be_bytes(u, n)) == u,
    decreases n,
{
    if n == 0 {
        assert(u == 0);
    } else {
        let h = u >> 8u128;
        assert(u >> 8u128 == u / 256u128) by (bit_vector);
        assert(u == (u >> 8u128) * 256u128 + (u as u8) as u128) by (bit_vector);
        assert(u >> 0u128 == u) by (bit_vector);
        assert(be_bytes(u, n).last() == u as u8);
        let p = pow256((n - 1) as nat);
        assert(u / 256 < p) by (nonlinear_arith)
            requires
                u < 256 * p,
        ;
        assert forall|i: int| 0 <= i < n - 1 implies #[trigger] be_bytes(u, n).drop_last()[i]
            == be_bytes(h, (n - 1) as nat)[i] by {
            lemma_shr_shr(u, (8 * (n - 2 - i)) as u128);
        }
        assert(be_bytes(u, n).drop_last() =~= be_bytes(h, (n - 1) as nat));
        lemma_be_value(h, (n - 1) as nat);
    }
}

} // verus!
