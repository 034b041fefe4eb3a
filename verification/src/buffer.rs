//! Overlap-save input buffering, shared by the analysis and synthesis banks.
//!
//! An input buffer owns `new + overlap` complex samples. On each tick the
//! trailing `overlap` samples slide to the front and the source then
//! writes `new` fresh samples behind them, so that consecutive blocks
//! share their boundary region.

use vstd::prelude::*;

use crate::sample::{all_zero, zero_block, ComplexSample};

verus! {

/// The block geometry of an overlap-save input buffer.
#[derive(Copy, Clone)]
pub struct InputBlockSize {
    /// Number of new input samples in each input block.
    pub new: usize,
    /// Number of samples shared between consecutive blocks: the first
    /// `overlap` samples of a block equal the last `overlap` samples of
    /// the block before it. A whole block holds `new + overlap` samples.
    pub overlap: usize,
}

impl InputBlockSize {
    /// The overlap factor is fixed at 1/2: as many fresh samples as
    /// overlapping ones, at least one of each, and a total that fits a
    /// machine word.
    pub open spec fn wf(self) -> bool {
        &&& self.new == self.overlap
        &&& 0 < self.new
        &&& self.new + self.overlap <= usize::MAX
    }

    /// The whole block length, `new + overlap`.
    pub open spec fn total(self) -> int {
        self.new + self.overlap
    }
}

/// The contents of an overlap-save buffer after the slide that starts a
/// tick: the trailing `overlap` samples have moved to the front and the
/// rest is unchanged.
pub open spec fn slid(s: Seq<ComplexSample>, new: int, overlap: int) -> Seq<ComplexSample> {
    Seq::new(s.len(), |i: int| if i < overlap { s[new + i] } else { s[i] })
}

/// The contents of an overlap-save buffer after the source has written
/// the fresh samples behind the overlap region.
pub open spec fn filled(s: Seq<ComplexSample>, fresh: Seq<ComplexSample>, overlap: int) -> Seq<
    ComplexSample,
> {
    Seq::new(s.len(), |i: int| if i < overlap { s[i] } else { fresh[i - overlap] })
}

/// Overlap-save: after a whole tick (slide, then fill), the first
/// `overlap` samples of the buffer equal the last `overlap` samples of
/// the previous tick's full buffer, whatever the source wrote.
pub proof fn lemma_overlap_save(
    s: Seq<ComplexSample>,
    fresh: Seq<ComplexSample>,
    new: int,
    overlap: int,
)
    requires
        0 <= new,
        0 <= overlap,
        s.len() == new + overlap,
    ensures
        filled(slid(s, new, overlap), fresh, overlap).subrange(0, overlap) == s.subrange(
            new,
            new + overlap,
        ),
{
    assert(filled(slid(s, new, overlap), fresh, overlap).subrange(0, overlap) =~= s.subrange(
        new,
        new + overlap,
    ));
}

/// An overlap-save input buffer: a block of `new + overlap` complex
/// samples owned by whichever source writes into it.
pub struct InputBuffer {
    pub size: InputBlockSize,
    pub samples: Vec<ComplexSample>,
}

impl InputBuffer {
    /// The buffer always holds exactly one whole block.
    pub open spec fn wf(self) -> bool {
        &&& self.size.wf()
        &&& self.samples@.len() == self.size.total()
    }

    /// A zero-initialized buffer for the given block geometry.
    pub fn new(size: InputBlockSize) -> (r: InputBuffer)
        requires
            size.wf(),
        ensures
            r.wf(),
            r.size == size,
            all_zero(r.samples@),
    {
        InputBuffer { size, samples: zero_block(size.new + size.overlap) }
    }

    /// Prepare the buffer for a new input block: slide the trailing
    /// `overlap` samples to the front. The fresh-sample region keeps its
    /// previous contents until `write_new_samples` overwrites it.
    pub fn prepare_for_new_samples(&mut self)
        requires
            old(self).wf(),
        ensures
            final(self).wf(),
            final(self).size == old(self).size,
            final(self).samples@ == slid(
                old(self).samples@,
                old(self).size.new as int,
                old(self).size.overlap as int,
            ),
    {
        let overlap = self.size.overlap;
        let new = self.size.new;
        let ghost start = self.samples@;
        let mut i: usize = 0;
        while i < overlap
            invariant
                i <= overlap,
                new + overlap <= usize::MAX,
                self.size == old(self).size,
                overlap == self.size.overlap,
                new == self.size.new,
                self.samples@.len() == start.len(),
                start.len() == new + overlap,
                forall|j: int| 0 <= j < i ==> self.samples@[j] == start[new + j],
                forall|j: int| i <= j < start.len() ==> self.samples@[j] == start[j],
            decreases overlap - i,
        {
            let v = self.samples[new + i];
            self.samples[i] = v;
            i = i + 1;
        }
        assert(self.samples@ =~= slid(start, new as int, overlap as int));
    }

    /// Write one block of `new` fresh samples behind the overlap region.
    pub fn write_new_samples(&mut self, fresh: &[ComplexSample])
        requires
            old(self).wf(),
            fresh@.len() == old(self).size.new,
        ensures
            final(self).wf(),
            final(self).size == old(self).size,
            final(self).samples@ == filled(
                old(self).samples@,
                fresh@,
                old(self).size.overlap as int,
            ),
    {
        let overlap = self.size.overlap;
        let n = self.size.new;
        let ghost start = self.samples@;
        let mut i: usize = 0;
        while i < n
            invariant
                i <= n,
                n + overlap <= usize::MAX,
                self.size == old(self).size,
                overlap == self.size.overlap,
                n == self.size.new,
                fresh@.len() == n,
                self.samples@.len() == start.len(),
                start.len() == n + overlap,
                forall|j: int| 0 <= j < overlap + i ==> j < overlap ==> self.samples@[j]
                    == start[j],
                forall|j: int| overlap <= j < overlap + i ==> self.samples@[j] == fresh@[j
                    - overlap],
                forall|j: int| overlap + i <= j < start.len() ==> self.samples@[j] == start[j],
            decreases n - i,
        {
            let v = fresh[i];
            self.samples[overlap + i] = v;
            i = i + 1;
        }
        assert(self.samples@ =~= filled(start, fresh@, overlap as int));
    }

    /// Borrow the whole block, ready to be handed to a filter bank.
    pub fn buffer(&self) -> (r: &Vec<ComplexSample>)
        ensures
            r@ == self.samples@,
    {
        &self.samples
    }
}

} // verus!
