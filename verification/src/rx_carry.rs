//! Over-read carry of a buffered link reader.

use vstd::prelude::*;

verus! {

/// The smaller of two lengths.
pub open spec fn min_len(a: int, b: int) -> int {
    if a <= b {
        a
    } else {
        b
    }
}

/// Bytes that one read delivered beyond the batch it was issued for.
///
/// Bytes are handed out front to back through a cursor and the buffer is refilled only once it is
/// drained, so a carried byte is copied twice (in and out) however many batches one read delivered.
#[derive(Debug)]
pub struct RxCarry {
    buf: Vec<u8>,
    start: usize,
}

impl View for RxCarry {
    type V = Seq<u8>;

    /// The pending bytes, in the order in which they arrived.
    closed spec fn view(&self) -> Seq<u8> {
        self.buf@.skip(self.start as int)
    }
}

impl Default for RxCarry {
    /// An empty carry.
    fn default() -> (carry: Self)
        ensures
            carry.wf(),
            carry@ == Seq::<u8>::empty(),
    {
        let carry = RxCarry { buf: Vec::new(), start: 0 };
        assert(carry@ =~= Seq::<u8>::empty());
        carry
    }
}

impl RxCarry {
    /// The cursor stays within the buffer.
    pub closed spec fn wf(&self) -> bool {
        self.start <= self.buf@.len()
    }

    /// Number of pending bytes.
    pub fn pending(&self) -> (n: usize)
        requires
            self.wf(),
        ensures
            n == self@.len(),
    {
        self.buf.len() - self.start
    }

    /// Whether no byte is pending.
    pub fn is_empty(&self) -> (b: bool)
        requires
            self.wf(),
        ensures
            b <==> self@.len() == 0,
    {
        self.start == self.buf.len()
    }

    /// Moves at most `want` pending bytes into `dst[at..]` and returns how many were moved.
    pub fn take_into(&mut self, dst: &mut [u8], at: usize, want: usize) -> (n: usize)
        requires
            old(self).wf(),
            at <= old(dst)@.len(),
        ensures
            final(self).wf(),
            n == min_len(min_len(want as int, old(self)@.len() as int), old(dst)@.len() - at),
            final(self)@ == old(self)@.skip(n as int),
            final(dst)@ == old(dst)@.take(at as int) + old(self)@.take(n as int) + old(dst)@.skip(
                at + n,
            ),
    {
        let pending: usize = self.pending();
        let dst_len: usize = dst.len();
        let room: usize = dst_len - at;
        let capped: usize = if want <= pending {
            want
        } else {
            pending
        };
        let n: usize = if capped <= room {
            capped
        } else {
            room
        };
        let ghost bytes = self@;
        let ghost before = dst@;
        let mut i: usize = 0;
        while i < n
            invariant
                i <= n,
                self.wf(),
                bytes == self@,
                n <= bytes.len(),
                self.start + n <= self.buf.len(),
                at + n <= dst_len,
                before.len() == dst_len,
                dst@ == before.take(at as int) + bytes.take(i as int) + before.skip(at + i),
            decreases n - i,
        {
            let b: u8 = self.buf[self.start + i];
            dst[at + i] = b;
            i = i + 1;
            assert(dst@ =~= before.take(at as int) + bytes.take(i as int) + before.skip(at + i));
        }
        self.start = self.start + n;
        assert(self@ =~= bytes.skip(n as int));
        if self.start == self.buf.len() {
            self.buf.clear();
            self.start = 0;
            assert(self@ =~= bytes.skip(n as int));
        }
        n
    }

    /// Takes over an over-read tail. The carry must be drained: only a read can over-read, and a
    /// read is issued only once the carry is exhausted.
    pub fn stash(&mut self, src: &[u8])
        requires
            old(self).wf(),
            old(self)@.len() == 0,
        ensures
            final(self).wf(),
            final(self)@ == src@,
    {
        self.buf.clear();
        self.start = 0;
        let mut i: usize = 0;
        while i < src.len()
            invariant
                i <= src@.len(),
                self.start == 0,
                self.buf@ == src@.take(i as int),
            decreases src@.len() - i,
        {
            self.buf.push(src[i]);
            i = i + 1;
            assert(self.buf@ =~= src@.take(i as int));
        }
        assert(self@ =~= src@);
    }
}

} // verus!
