//! The synthesis filter bank: many narrowband inputs, one wideband output.
//!
//! Each tick, every input processor forward-transforms one sub-channel
//! block, weights it, and swaps its halves so that the deposit into the
//! wideband accumulator is one contiguous modular add at an offset. The
//! output processor accumulates any number of such spectra, runs one
//! inverse transform, and returns the middle half of the result.

use vstd::prelude::*;

use crate::buffer::{InputBlockSize, InputBuffer};
use crate::numeric::{euclid_mod, middle_half};
use crate::sample::{
    all_zero, complex_add, complex_scale, complex_zero, csum, scaled, zero_block, zero_sample,
    zero_value, ComplexSample,
};
use crate::transform::{fft_forward_in_place, fft_inverse_in_place};

verus! {

/// Geometry of the wideband side of a synthesis bank.
#[derive(Copy, Clone)]
pub struct SynthesisOutputParameters {
    /// Transform size of the wideband bank; one output block is half of it.
    pub ifft_size: usize,
}

impl SynthesisOutputParameters {
    /// The overlap factor of 1/2 requires an even, positive size; the
    /// bound keeps every bin index computation inside `isize`.
    pub open spec fn wf(self) -> bool {
        &&& 2 <= self.ifft_size
        &&& self.ifft_size % 2 == 0
        &&& self.ifft_size <= isize::MAX / 4
    }
}

/// One sub-channel's contribution to a tick: a weighted, half-swapped
/// spectrum and the wideband bin at which its bin 0 is deposited.
pub struct SynthesisIntermediateResult {
    /// Wideband accumulator bin for bin 0 of `fft_result`: accumulator
    /// bin indexes are `offset + i`, reduced modulo the wideband size.
    pub offset: usize,
    pub fft_result: Vec<ComplexSample>,
}

/// What the wideband accumulator buffer currently holds.
#[derive(Copy, Clone, PartialEq, Eq, Structural)]
pub enum SynthesisBufferState {
    /// All zeros; no inputs have been added since the last output.
    Clear,
    /// A frequency-domain sum: one or more inputs have been added.
    Input,
    /// The time-domain result of the previous tick's inverse transform.
    Output,
}

/// The accumulator state after one `process` call: a frequency-domain
/// sum is transformed into an output, anything else is cleared.
pub open spec fn next_buffer_state(s: SynthesisBufferState) -> SynthesisBufferState {
    match s {
        SynthesisBufferState::Clear => SynthesisBufferState::Clear,
        SynthesisBufferState::Input => SynthesisBufferState::Output,
        SynthesisBufferState::Output => SynthesisBufferState::Clear,
    }
}

/// Accumulator idle: a `process` call never leaves the accumulator in
/// the input state, and `process` outside the input state hands back
/// all-zero samples, so if `add` is never called between two `process`
/// calls, the second call returns zeros.
pub proof fn lemma_accumulator_idle(s: SynthesisBufferState)
    ensures
        !(next_buffer_state(s) is Input),
{
}

/// A sequence of `n` zero samples.
pub open spec fn zero_seq(n: int) -> Seq<ComplexSample> {
    Seq::new(n as nat, |i: int| zero_value())
}

/// The accumulator contents after depositing the spectrum `x` at bin
/// `off`: each accumulator bin `j` that the window `[off, off + x.len())`
/// covers modulo the length gains `x`'s sample for that bin; every other
/// bin keeps its value.
pub open spec fn deposited(base: Seq<ComplexSample>, x: Seq<ComplexSample>, off: int) -> Seq<
    ComplexSample,
> {
    Seq::new(
        base.len(),
        |j: int|
            {
                let d = (j - off) % (base.len() as int);
                if d < x.len() {
                    csum(base[j], x[d])
                } else {
                    base[j]
                }
            },
    )
}

/// Accumulates sub-channel spectra and produces one wideband time-domain
/// block per tick.
pub struct SynthesisOutputProcessor {
    pub parameters: SynthesisOutputParameters,
    /// Accumulates filter bank inputs in the frequency domain before the
    /// inverse transform, and holds the output signal after it;
    /// `buffer_state` says which.
    pub buffer: Vec<ComplexSample>,
    pub buffer_state: SynthesisBufferState,
}

impl SynthesisOutputProcessor {
    /// The buffer always holds one whole transform, and in the cleared
    /// state it holds only zeros.
    pub open spec fn wf(self) -> bool {
        &&& self.parameters.wf()
        &&& self.buffer@.len() == self.parameters.ifft_size
        &&& self.buffer_state is Clear ==> all_zero(self.buffer@)
    }

    pub fn new(parameters: SynthesisOutputParameters) -> (r: SynthesisOutputProcessor)
        requires
            parameters.wf(),
        ensures
            r.wf(),
            r.parameters == parameters,
            r.buffer_state is Clear,
    {
        SynthesisOutputProcessor {
            parameters,
            buffer: zero_block(parameters.ifft_size),
            buffer_state: SynthesisBufferState::Clear,
        }
    }

    /// Zero the accumulator and forget any pending inputs or output.
    pub fn clear(&mut self)
        requires
            old(self).wf(),
        ensures
            final(self).wf(),
            final(self).parameters == old(self).parameters,
            final(self).buffer_state is Clear,
            all_zero(final(self).buffer@),
            final(self).buffer@ == zero_seq(old(self).parameters.ifft_size as int),
    {
        let n = self.parameters.ifft_size;
        let mut i: usize = 0;
        while i < n
            invariant
                i <= n,
                self.parameters == old(self).parameters,
                self.buffer_state == old(self).buffer_state,
                n == self.parameters.ifft_size,
                self.buffer@.len() == n,
                forall|j: int| 0 <= j < i ==> self.buffer@[j] == zero_value(),
                forall|j: int|
                    0 <= j < i ==> zero_sample(#[trigger] self.buffer@[j]),
            decreases n - i,
        {
            let z = complex_zero();
            self.buffer[i] = z;
            i = i + 1;
        }
        self.buffer_state = SynthesisBufferState::Clear;
        assert(self.buffer@ =~= zero_seq(n as int));
    }

    /// Add one sub-channel spectrum into the accumulator. If the buffer
    /// still holds the previous tick's output it is cleared first, so the
    /// deposit always lands on the frequency-domain sum of this tick.
    pub fn add(&mut self, intermediate: &SynthesisIntermediateResult)
        requires
            old(self).wf(),
            intermediate.fft_result@.len() <= old(self).parameters.ifft_size,
            intermediate.offset < old(self).parameters.ifft_size,
        ensures
            final(self).wf(),
            final(self).parameters == old(self).parameters,
            final(self).buffer_state is Input,
            final(self).buffer@ == deposited(
                if old(self).buffer_state is Output {
                    zero_seq(old(self).parameters.ifft_size as int)
                } else {
                    old(self).buffer@
                },
                intermediate.fft_result@,
                intermediate.offset as int,
            ),
    {
        if matches!(self.buffer_state, SynthesisBufferState::Output) {
            self.clear();
        }
        let ghost base = self.buffer@;
        let n = self.parameters.ifft_size;
        let off = intermediate.offset;
        let len = intermediate.fft_result.len();
        let mut i: usize = 0;
        while i < len
            invariant
                i <= len,
                self.parameters == old(self).parameters,
                self.parameters.wf(),
                n == self.parameters.ifft_size,
                off < n,
                len == intermediate.fft_result@.len(),
                len <= n,
                base.len() == n,
                self.buffer@.len() == n,
                forall|j: int|
                    0 <= j < n && 0 <= (j - off) % (n as int) < i ==> self.buffer@[j] == csum(
                        base[j],
                        intermediate.fft_result@[(j - off) % (n as int)],
                    ),
                forall|j: int|
                    0 <= j < n && (j - off) % (n as int) >= i ==> self.buffer@[j] == base[j],
            decreases len - i,
        {
            let j = if off + i < n {
                off + i
            } else {
                off + i - n
            };
            proof {
                lemma_wrap_index(off as int, i as int, n as int);
            }
            let v = complex_add(&self.buffer[j], &intermediate.fft_result[i]);
            self.buffer[j] = v;
            i = i + 1;
        }
        self.buffer_state = SynthesisBufferState::Input;
        assert(self.buffer@ =~= deposited(base, intermediate.fft_result@, off as int));
    }

    /// Produce one wideband output block: inverse-transform the
    /// accumulated sum, or hand back zeros when no input arrived since
    /// the last output. The block is exactly half a transform long, the
    /// middle half of the buffer.
    pub fn process(&mut self) -> (out: &[ComplexSample])
        requires
            old(self).wf(),
        ensures
            final(self).wf(),
            final(self).parameters == old(self).parameters,
            out@ == middle_half(final(self).buffer@),
            out@.len() == old(self).parameters.ifft_size / 2,
            final(self).buffer_state == next_buffer_state(old(self).buffer_state),
            !(old(self).buffer_state is Input) ==> all_zero(out@),
            old(self).buffer_state is Clear ==> final(self).buffer@ == old(self).buffer@,
            old(self).buffer_state is Output ==> final(self).buffer@ == zero_seq(
                old(self).parameters.ifft_size as int,
            ),
    {
        match self.buffer_state {
            SynthesisBufferState::Clear => {
                // No inputs: the buffer is already all zeros, and the
                // inverse transform of zeros would be zeros again.
            },
            SynthesisBufferState::Input => {
                fft_inverse_in_place(&mut self.buffer);
                self.buffer_state = SynthesisBufferState::Output;
            },
            SynthesisBufferState::Output => {
                // No inputs arrived since the previous output; do not
                // hand the stale block out again.
                self.clear();
            },
        }
        let n = self.buffer.len();
        let start = n / 4;
        let len = n / 2;
        proof {
            crate::numeric::lemma_middle_half_bounds(n as nat);
        }
        &self.buffer.as_slice()[start..start + len]
    }
}

/// The wrapped accumulator index `off + i` (reduced by one subtraction)
/// is exactly the bin whose window distance from `off` is `i`, and no
/// other bin in range has that distance.
proof fn lemma_wrap_index(off: int, i: int, n: int)
    requires
        0 < n,
        0 <= off < n,
        0 <= i < n,
    ensures
        ({
            let j = if off + i < n {
                off + i
            } else {
                off + i - n
            };
            (j - off) % n == i
        }),
        forall|j: int|
            0 <= j < n && #[trigger] ((j - off) % n) == i ==> j == (if off + i < n {
                off + i
            } else {
                off + i - n
            }),
{
    let j0 = if off + i < n {
        off + i
    } else {
        off + i - n
    };
    vstd::arithmetic::div_mod::lemma_fundamental_div_mod_converse_mod(
        j0 - off,
        n,
        if off + i < n {
            0
        } else {
            -1
        },
        i,
    );
    assert forall|j: int| 0 <= j < n && #[trigger] ((j - off) % n) == i implies j == j0 by {
        vstd::arithmetic::div_mod::lemma_fundamental_div_mod(j - off, n);
        let q = (j - off) / n;
        assert(q == 0 || q == -1) by (nonlinear_arith)
            requires
                j - off == q * n + i,
                0 <= j < n,
                0 <= off < n,
                0 <= i < n,
                0 < n,
        ;
        assert(q == 0 ==> q * n == 0) by (nonlinear_arith);
        assert(q == -1 ==> q * n == -n) by (nonlinear_arith);
    }
}

/// Configuration of one synthesis input: the wideband bin its spectrum
/// is centered on, and its weight vector, one weight per sub-channel
/// bin. The sub-channel transform size is the weight vector's length.
pub struct SynthesisInputParameters {
    pub center_bin: isize,
    pub weights: Vec<ComplexSample>,
}

impl SynthesisInputParameters {
    /// The sub-channel transform must be even and positive, no wider
    /// than the wideband transform, and the center bin small enough that
    /// bin arithmetic stays inside `isize`.
    pub open spec fn wf(self, ifft_size: int) -> bool {
        &&& 2 <= self.weights@.len()
        &&& self.weights@.len() % 2 == 0
        &&& self.weights@.len() <= ifft_size
        &&& -(isize::MAX / 2) <= self.center_bin <= isize::MAX / 2
    }
}

/// Each spectrum value scaled by its weight, elementwise.
pub open spec fn weighted(weights: Seq<ComplexSample>, values: Seq<ComplexSample>) -> Seq<
    ComplexSample,
> {
    Seq::new(values.len(), |i: int| scaled(weights[i], values[i]))
}

/// The two halves of an even-length block exchanged: DC-centered order
/// becomes deposit order.
pub open spec fn half_swapped(s: Seq<ComplexSample>) -> Seq<ComplexSample> {
    Seq::new(
        s.len(),
        |i: int|
            if i < s.len() / 2 {
                s[i + s.len() / 2]
            } else {
                s[i - s.len() / 2]
            },
    )
}

/// Scale each value by its weight, in place.
pub fn apply_weights(values: &mut Vec<ComplexSample>, weights: &Vec<ComplexSample>)
    requires
        old(values)@.len() <= weights@.len(),
    ensures
        final(values)@ == weighted(weights@, old(values)@),
{
    let n = values.len();
    let mut i: usize = 0;
    while i < n
        invariant
            i <= n,
            values@.len() == n,
            n <= weights@.len(),
            forall|j: int| 0 <= j < i ==> values@[j] == scaled(weights@[j], old(values)@[j]),
            forall|j: int| i <= j < n ==> values@[j] == old(values)@[j],
        decreases n - i,
    {
        let v = complex_scale(&weights[i], &values[i]);
        values[i] = v;
        i = i + 1;
    }
    assert(values@ =~= weighted(weights@, old(values)@));
}

/// Exchange the two halves of an even-length block, in place.
pub fn swap_halves(values: &mut Vec<ComplexSample>)
    requires
        old(values)@.len() % 2 == 0,
    ensures
        final(values)@ == half_swapped(old(values)@),
{
    let n = values.len();
    let half = n / 2;
    let mut i: usize = 0;
    while i < half
        invariant
            i <= half,
            values@.len() == n,
            half == n / 2,
            n % 2 == 0,
            forall|j: int| 0 <= j < i ==> values@[j] == old(values)@[j + half],
            forall|j: int| 0 <= j < i ==> values@[j + half] == old(values)@[j],
            forall|j: int| i <= j < half ==> values@[j] == old(values)@[j],
            forall|j: int| half + i <= j < n ==> values@[j] == old(values)@[j],
        decreases half - i,
    {
        let a = values[i];
        let b = values[half + i];
        values[i] = b;
        values[half + i] = a;
        i = i + 1;
    }
    assert(values@ =~= half_swapped(old(values)@));
}

/// Turns one sub-channel block per tick into a weighted, half-swapped
/// spectrum ready to be deposited into the wideband accumulator.
pub struct SynthesisInputProcessor {
    pub weights: Vec<ComplexSample>,
    pub result: SynthesisIntermediateResult,
}

impl SynthesisInputProcessor {
    /// The spectrum buffer always holds one sub-channel transform, and
    /// the deposit offset stays inside the wideband transform.
    pub open spec fn wf(self, ifft_size: int) -> bool {
        &&& 2 <= self.weights@.len()
        &&& self.weights@.len() % 2 == 0
        &&& self.weights@.len() <= ifft_size
        &&& self.result.fft_result@.len() == self.weights@.len()
        &&& self.result.offset < ifft_size
    }

    /// The sub-channel transform size.
    pub open spec fn fft_size(self) -> int {
        self.weights@.len() as int
    }

    /// Build a synthesis input for the given wideband bank. The deposit
    /// offset is fixed at construction: the center bin less half the
    /// sub-channel width, reduced modulo the wideband size.
    pub fn new(
        output_parameters: SynthesisOutputParameters,
        parameters: SynthesisInputParameters,
    ) -> (r: SynthesisInputProcessor)
        requires
            output_parameters.wf(),
            parameters.wf(output_parameters.ifft_size as int),
        ensures
            r.wf(output_parameters.ifft_size as int),
            r.weights == parameters.weights,
            r.result.offset as int == (parameters.center_bin as int
                - parameters.weights@.len() as int / 2) % (output_parameters.ifft_size as int),
            all_zero(r.result.fft_result@),
    {
        let fft_size = parameters.weights.len();
        let offset = euclid_mod(
            parameters.center_bin - (fft_size / 2) as isize,
            output_parameters.ifft_size,
        );
        SynthesisInputProcessor {
            weights: parameters.weights,
            result: SynthesisIntermediateResult { offset, fft_result: zero_block(fft_size) },
        }
    }

    /// Block accounting for the sub-channel input: as many new samples
    /// as overlapping ones, together one whole sub-channel transform.
    pub fn input_block_size(&self) -> (r: InputBlockSize)
        requires
            2 <= self.weights@.len(),
            self.weights@.len() % 2 == 0,
            self.result.fft_result@.len() == self.weights@.len(),
        ensures
            r.wf(),
            r.new == self.weights@.len() / 2,
            r.overlap == self.weights@.len() / 2,
            r.new + r.overlap == self.weights@.len(),
    {
        let fft_size = self.result.fft_result.len();
        InputBlockSize { new: fft_size / 2, overlap: fft_size / 2 }
    }

    /// An overlap-save buffer sized for this sub-channel.
    pub fn make_input_buffer(&self) -> (r: InputBuffer)
        requires
            2 <= self.weights@.len(),
            self.weights@.len() % 2 == 0,
            self.result.fft_result@.len() == self.weights@.len(),
        ensures
            r.wf(),
            r.size.new == self.weights@.len() / 2,
            r.size.overlap == self.weights@.len() / 2,
            all_zero(r.samples@),
            r.samples@.len() == self.weights@.len(),
    {
        InputBuffer::new(self.input_block_size())
    }

    /// Copy one whole sub-channel block into the spectrum buffer, which
    /// then holds exactly the input, ready for the transform.
    pub fn load_block(&mut self, input: &Vec<ComplexSample>)
        requires
            old(self).result.fft_result@.len() == old(self).weights@.len(),
            input@.len() == old(self).weights@.len(),
        ensures
            final(self).weights == old(self).weights,
            final(self).result.offset == old(self).result.offset,
            final(self).result.fft_result@ == input@,
    {
        let n = self.result.fft_result.len();
        let mut i: usize = 0;
        while i < n
            invariant
                i <= n,
                input@.len() == n,
                self.result.fft_result@.len() == n,
                self.weights == old(self).weights,
                self.result.offset == old(self).result.offset,
                n == self.weights@.len(),
                forall|j: int| 0 <= j < i ==> self.result.fft_result@[j] == input@[j],
            decreases n - i,
        {
            let v = input[i];
            self.result.fft_result[i] = v;
            i = i + 1;
        }
        assert(self.result.fft_result@ =~= input@);
    }

    /// Consume one whole sub-channel block: load it into the spectrum
    /// buffer (`load_block` fixes that the block handed to the
    /// transform is exactly `input`), forward-transform it in place,
    /// then weight and swap halves (`apply_weights` and `swap_halves`
    /// fix both steps bin by bin), so that the deposit is one
    /// contiguous modular add. The result stays valid until the next
    /// call and is read through `intermediate`.
    pub fn process(&mut self, input: &Vec<ComplexSample>)
        requires
            2 <= old(self).weights@.len(),
            old(self).weights@.len() % 2 == 0,
            old(self).result.fft_result@.len() == old(self).weights@.len(),
            input@.len() == old(self).weights@.len(),
        ensures
            final(self).weights == old(self).weights,
            final(self).result.offset == old(self).result.offset,
            final(self).result.fft_result@.len() == old(self).weights@.len(),
    {
        self.load_block(input);
        fft_forward_in_place(&mut self.result.fft_result);
        apply_weights(&mut self.result.fft_result, &self.weights);
        swap_halves(&mut self.result.fft_result);
    }

    /// The spectrum and offset produced by the last `process` call.
    pub fn intermediate(&self) -> (r: &SynthesisIntermediateResult)
        ensures
            r == &self.result,
    {
        &self.result
    }
}

} // verus!
