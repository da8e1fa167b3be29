//! Fixed-size blocking of a sample stream: samples are buffered until a
//! whole block is ready (the voice detector's window, the resampler's
//! chunk), and what remains can be flushed padded to a whole block.

use vstd::prelude::*;

verus! {

/// The blocks of `size` samples that `all` holds completely, in order.
pub open spec fn whole_blocks<T>(all: Seq<T>, size: nat) -> Seq<Seq<T>>
    recommends
        size > 0,
{
    Seq::new(
        all.len() / size,
        |i: int| all.subrange(i * size, i * size + size),
    )
}

/// What is left of `all` after its whole blocks of `size` samples.
pub open spec fn block_remainder<T>(all: Seq<T>, size: nat) -> Seq<T>
    recommends
        size > 0,
{
    all.skip(((all.len() / size) * size) as int)
}

/// Samples buffered until whole blocks are ready.
#[derive(Debug)]
pub struct ChunkBuffer<T> {
    size: usize,
    pending: Vec<T>,
}

impl<T: Copy> ChunkBuffer<T> {
    /// The block size.
    pub closed spec fn block_size(&self) -> nat {
        self.size as nat
    }

    /// The samples waiting for a whole block.
    pub closed spec fn waiting(&self) -> Seq<T> {
        self.pending@
    }

    /// The buffer's invariant: a positive block size and less than one block
    /// waiting.
    pub closed spec fn wf(&self) -> bool {
        self.size > 0 && self.pending@.len() < self.size
    }

    /// An empty buffer of blocks of `size` samples.
    pub fn new(size: usize) -> (r: Self)
        requires
            size > 0,
        ensures
            r.wf(),
            r.block_size() == size,
            r.waiting().len() == 0,
    {
        ChunkBuffer { size, pending: Vec::new() }
    }

    /// Buffers `samples` and hands out every whole block now ready, oldest
    /// first; the rest stays buffered.
    pub fn push(&mut self, samples: &[T]) -> (r: Vec<Vec<T>>)
        requires
            old(self).wf(),
        ensures
            final(self).wf(),
            final(self).block_size() == old(self).block_size(),
            r@.len() == whole_blocks(old(self).waiting() + samples@, old(self).block_size()).len(),
            forall|i: int|
                0 <= i < r@.len() ==> (#[trigger] r@[i])@ == whole_blocks(
                    old(self).waiting() + samples@,
                    old(self).block_size(),
                )[i],
            final(self).waiting() == block_remainder(old(self).waiting() + samples@, old(self).block_size()),
    {
        let ghost all = self.pending@ + samples@;
        let size = self.size;
        let mut buf: Vec<T> = Vec::new();
        let mut i: usize = 0;
        let n0 = self.pending.len();
        while i < n0
            invariant
                i <= n0 == self.pending@.len(),
                buf@ == self.pending@.take(i as int),
            decreases n0 - i,
        {
            buf.push(self.pending[i]);
            assert(self.pending@.take(i + 1) =~= self.pending@.take(i as int).push(self.pending@[i as int]));
            i += 1;
        }
        assert(self.pending@.take(n0 as int) =~= self.pending@);
        let mut j: usize = 0;
        while j < samples.len()
            invariant
                j <= samples@.len(),
                buf@ == self.pending@ + samples@.take(j as int),
            decreases samples@.len() - j,
        {
            buf.push(samples[j]);
            assert(self.pending@ + samples@.take(j + 1) =~= (self.pending@ + samples@.take(j as int)).push(
                samples@[j as int],
            ));
            j += 1;
        }
        assert(samples@.take(samples@.len() as int) =~= samples@);
        assert(buf@ == all);
        let total = buf.len();
        let mut out: Vec<Vec<T>> = Vec::new();
        let mut start: usize = 0;
        assert(out@.len() * size == 0) by (nonlinear_arith)
            requires
                out@.len() == 0,
        ;
        while total - start >= size
            invariant
                size > 0,
                total == buf@.len(),
                buf@ == all,
                start <= total,
                start == out@.len() * size,
                forall|k: int|
                    0 <= k < out@.len() ==> (#[trigger] out@[k])@ == all.subrange(k * size, k * size + size),
            decreases total - start,
        {
            let mut block: Vec<T> = Vec::new();
            let mut k: usize = 0;
            while k < size
                invariant
                    k <= size,
                    start + size <= total == buf@.len(),
                    block@ == buf@.subrange(start as int, start + k),
                decreases size - k,
            {
                block.push(buf[start + k]);
                assert(buf@.subrange(start as int, start + k).push(buf@[start + k]) =~= buf@.subrange(
                    start as int,
                    start + k + 1,
                ));
                k += 1;
            }
            proof {
                let m = out@.len() as int;
                assert(m * size + size == (m + 1) * size) by (nonlinear_arith);
            }
            out.push(block);
            start = start + size;
        }
        let mut rest: Vec<T> = Vec::new();
        let mut q: usize = start;
        while q < total
            invariant
                start <= q <= total == buf@.len(),
                rest@ == buf@.subrange(start as int, q as int),
            decreases total - q,
        {
            rest.push(buf[q]);
            assert(buf@.subrange(start as int, q as int).push(buf@[q as int]) =~= buf@.subrange(
                start as int,
                q + 1,
            ));
            q += 1;
        }
        proof {
            let m = out@.len() as int;
            let s = size as int;
            assert(total - start < s);
            assert(start == m * s);
            assert(m == (total as int) / s && (total as int) / s * s == start) by (nonlinear_arith)
                requires
                    start == m * s,
                    0 <= total - start < s,
                    s > 0,
                    m >= 0,
            ;
            assert(rest@ =~= all.skip(start as int));
            assert(whole_blocks(all, size as nat).len() == m);
            assert forall|i: int| 0 <= i < out@.len() implies (#[trigger] out@[i])@ == whole_blocks(
                all,
                size as nat,
            )[i] by {}
        }
        self.pending = rest;
        out
    }

    /// Empties the buffer: the waiting samples padded with `fill` to a whole
    /// block, or nothing when none wait.
    pub fn take_padded(&mut self, fill: T) -> (r: Option<Vec<T>>)
        requires
            old(self).wf(),
        ensures
            final(self).wf(),
            final(self).block_size() == old(self).block_size(),
            final(self).waiting().len() == 0,
            old(self).waiting().len() == 0 ==> r.is_none(),
            old(self).waiting().len() > 0 ==> (r matches Some(b) && b@ == old(self).waiting() + Seq::new(
                (old(self).block_size() - old(self).waiting().len()) as nat,
                |i: int| fill,
            )),
    {
        if self.pending.len() == 0 {
            return None;
        }
        let mut block: Vec<T> = Vec::new();
        let n = self.pending.len();
        let mut i: usize = 0;
        while i < n
            invariant
                i <= n == self.pending@.len(),
                n < self.size,
                block@ == self.pending@.take(i as int),
            decreases n - i,
        {
            block.push(self.pending[i]);
            assert(self.pending@.take(i + 1) =~= self.pending@.take(i as int).push(self.pending@[i as int]));
            i += 1;
        }
        assert(self.pending@.take(n as int) =~= self.pending@);
        let ghost p = self.pending@;
        let mut k: usize = n;
        while k < self.size
            invariant
                n <= k <= self.size,
                p.len() == n,
                block@ == p + Seq::new((k - n) as nat, |i: int| fill),
            decreases self.size - k,
        {
            block.push(fill);
            assert(p + Seq::new((k + 1 - n) as nat, |i: int| fill) =~= (p + Seq::new((k - n) as nat, |i: int| fill)).push(fill));
            k += 1;
        }
        self.pending = Vec::new();
        Some(block)
    }
}

/// Nothing is lost or reordered: the blocks handed out, followed by what
/// stays buffered, are exactly the buffered samples followed by the new ones.
pub proof fn lemma_blocks_then_remainder<T>(all: Seq<T>, size: nat)
    requires
        size > 0,
    ensures
        whole_blocks(all, size).len() * size + block_remainder(all, size).len() == all.len(),
        forall|i: int, j: int|
            0 <= i < whole_blocks(all, size).len() && 0 <= j < size ==> #[trigger] whole_blocks(all, size)[i][j]
                == all[i * size + j],
        forall|j: int|
            0 <= j < block_remainder(all, size).len() ==> #[trigger] block_remainder(all, size)[j] == all[
                whole_blocks(all, size).len() * size + j],
{
    let m = all.len() / size;
    assert(m * size <= all.len()) by (nonlinear_arith)
        requires
            m == all.len() / size,
            size > 0,
    ;
    assert forall|i: int, j: int|
        0 <= i < whole_blocks(all, size).len() && 0 <= j < size implies #[trigger] whole_blocks(all, size)[i][j]
            == all[i * size + j] by {
        assert(i * size + size <= m * size) by (nonlinear_arith)
            requires
                0 <= i < m,
                size > 0,
        ;
        assert(0 <= i * size) by (nonlinear_arith)
            requires
                0 <= i,
                size > 0,
        ;
    }
}

} // verus!
