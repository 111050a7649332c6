use vstd::prelude::*;

verus! {

/// An in-memory byte source: a buffer and a read position.
///
/// The position may stand past the end of the buffer; nothing is left to read
/// then.
#[derive(Debug)]
pub struct Cursor {
    inner: Vec<u8>,
    pos: u64,
}

impl Cursor {
    /// The whole buffer.
    pub closed spec fn data(&self) -> Seq<u8> {
        self.inner@
    }

    /// The read position.
    pub closed spec fn pos(&self) -> nat {
        self.pos as nat
    }

    /// The bytes that are still to be read.
    pub open spec fn rest(&self) -> Seq<u8> {
        if self.pos() < self.data().len() {
            self.data().subrange(self.pos() as int, self.data().len() as int)
        } else {
            Seq::empty()
        }
    }

    /// A cursor at the start of `inner`.
    pub fn new(inner: Vec<u8>) -> (r: Cursor)
        ensures
            r.data() == inner@,
            r.pos() == 0,
    {
        Cursor { inner, pos: 0 }
    }

    /// The buffer, given back.
    pub fn into_inner(self) -> (r: Vec<u8>)
        ensures
            r@ == self.data(),
    {
        self.inner
    }

    /// The buffer.
    pub fn get_ref(&self) -> (r: &Vec<u8>)
        ensures
            r@ == self.data(),
    {
        &self.inner
    }

    /// The buffer, to change; the read position stays.
    pub fn get_mut(&mut self) -> (r: &mut Vec<u8>)
        ensures
            r@ == old(self).data(),
            final(self).data() == final(r)@,
            final(self).pos() == old(self).pos(),
    {
        &mut self.inner
    }

    /// The read position.
    pub fn position(&self) -> (r: u64)
        ensures
            r == self.pos(),
    {
        self.pos
    }

    /// Moves the read position.
    pub fn set_position(&mut self, pos: u64)
        ensures
            final(self).data() == old(self).data(),
            final(self).pos() == pos,
    {
        self.pos = pos;
    }

    /// Takes the next byte, if one is left.
    pub fn read_byte(&mut self) -> (r: Option<u8>)
        ensures
            final(self).data() == old(self).data(),
            old(self).rest().len() == 0 ==> r is None && final(self).pos() == old(self).pos(),
            old(self).rest().len() > 0 ==> r == Some(old(self).rest()[0])
                && final(self).pos() == old(self).pos() + 1
                && final(self).rest() == old(self).rest().skip(1),
    {
        let len = self.inner.len() as u64;
        if self.pos < len {
            let b = self.inner[self.pos as usize];
            self.pos = self.pos + 1;
            assert(final(self).rest() =~= old(self).rest().skip(1));
            Some(b)
        } else {
            None
        }
    }

    /// Takes the next `n` bytes, if that many are left; else takes nothing.
    pub fn read_exact(&mut self, n: usize) -> (r: Option<Vec<u8>>)
        ensures
            final(self).data() == old(self).data(),
            old(self).rest().len() < n ==> r is None && final(self).pos() == old(self).pos(),
            old(self).rest().len() >= n ==> r is Some
                && r->0@ == old(self).rest().take(n as int)
                && final(self).pos() == old(self).pos() + n
                && final(self).rest() == old(self).rest().skip(n as int),
    {
        let len = self.inner.len() as u64;
        let left: u64 = if self.pos < len { len - self.pos } else { 0 };
        if left < n as u64 {
            return None;
        }
        if n == 0 {
            assert(old(self).rest().take(0) =~= Seq::<u8>::empty());
            assert(old(self).rest().skip(0) =~= old(self).rest());
            return Some(Vec::new());
        }
        let start = self.pos as usize;
        let total = self.inner.len();
        let mut out: Vec<u8> = Vec::new();
        let mut i: usize = 0;
        while i < n
            invariant
                start + n <= total,
                total == self.inner@.len(),
                start == self.pos,
                0 <= i <= n,
                out@ == self.inner@.subrange(start as int, start + i),
            decreases n - i,
        {
            out.push(self.inner[start + i]);
            i = i + 1;
            assert(out@ =~= self.inner@.subrange(start as int, start + i));
        }
        self.pos = self.pos + n as u64;
        assert(out@ =~= old(self).rest().take(n as int));
        assert(final(self).rest() =~= old(self).rest().skip(n as int));
        Some(out)
    }
}

/// Skipping `n` bytes, then `m` more, skips `n + m`.
pub broadcast proof fn lemma_skip_skip(b: Seq<u8>, n: int, m: int)
    requires
        0 <= n <= b.len(),
        0 <= m <= b.len() - n,
    ensures
        #[trigger] b.skip(n).skip(m) == b.skip(n + m),
{
    assert(b.skip(n).skip(m) =~= b.skip(n + m));
}

/// Skipping the front part of two joined sequences leaves the back part.
pub broadcast proof fn lemma_skip_front(a: Seq<u8>, b: Seq<u8>)
    ensures
        #[trigger] (a + b).skip(a.len() as int) == b,
{
    assert((a + b).skip(a.len() as int) =~= b);
}

} // verus!
