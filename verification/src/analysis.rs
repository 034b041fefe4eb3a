//! The analysis filter bank: one wideband input, many narrowband outputs.
//!
//! Each tick, the input processor forward-transforms one whole input
//! block into a shared intermediate spectrum. Each output processor then
//! selects a window of bins around its center bin, applies its weights,
//! inverse-transforms, and returns the middle half of the result.

use vstd::prelude::*;

use crate::buffer::{InputBlockSize, InputBuffer};
use crate::numeric::{euclid_mod, middle_half};
use crate::sample::{all_zero, complex_scale, scaled, zero_block, ComplexSample};
use crate::transform::{fft_forward_in_place, fft_inverse_in_place};

verus! {

/// Geometry of the wideband side of an analysis bank.
#[derive(Copy, Clone)]
pub struct AnalysisInputParameters {
    /// Transform size of the wideband bank; one input block long.
    pub fft_size: usize,
}

impl AnalysisInputParameters {
    /// The overlap factor of 1/2 requires an even, positive size; the
    /// bound keeps every bin index computation inside `isize`.
    pub open spec fn wf(self) -> bool {
        &&& 2 <= self.fft_size
        &&& self.fft_size % 2 == 0
        &&& self.fft_size <= isize::MAX / 4
    }
}

/// The spectrum of one wideband input block, shared read-only by all
/// output processors within one tick.
pub struct AnalysisIntermediateResult {
    pub fft_result: Vec<ComplexSample>,
}

/// Forward-transforms one wideband input block per tick.
pub struct AnalysisInputProcessor {
    pub parameters: AnalysisInputParameters,
    pub result: AnalysisIntermediateResult,
}

impl AnalysisInputProcessor {
    /// The spectrum buffer always holds one whole transform.
    pub open spec fn wf(self) -> bool {
        &&& self.parameters.wf()
        &&& self.result.fft_result@.len() == self.parameters.fft_size
    }

    pub fn new(parameters: AnalysisInputParameters) -> (r: AnalysisInputProcessor)
        requires
            parameters.wf(),
        ensures
            r.wf(),
            r.parameters == parameters,
            all_zero(r.result.fft_result@),
    {
        AnalysisInputProcessor {
            parameters,
            result: AnalysisIntermediateResult { fft_result: zero_block(parameters.fft_size) },
        }
    }

    /// Block accounting for the wideband input: as many new samples as
    /// overlapping ones, together one whole transform.
    pub fn input_block_size(&self) -> (r: InputBlockSize)
        requires
            self.wf(),
        ensures
            r.wf(),
            r.new == self.parameters.fft_size / 2,
            r.overlap == self.parameters.fft_size / 2,
            r.new + r.overlap == self.parameters.fft_size,
    {
        InputBlockSize { new: self.parameters.fft_size / 2, overlap: self.parameters.fft_size / 2 }
    }

    /// An overlap-save buffer sized for this bank.
    pub fn make_input_buffer(&self) -> (r: InputBuffer)
        requires
            self.wf(),
        ensures
            r.wf(),
            r.size.new == self.parameters.fft_size / 2,
            r.size.overlap == self.parameters.fft_size / 2,
            all_zero(r.samples@),
            r.samples@.len() == self.parameters.fft_size,
    {
        InputBuffer::new(self.input_block_size())
    }

    /// Copy one whole input block into the spectrum buffer, which then
    /// holds exactly the input, ready for the transform.
    pub fn load_block(&mut self, input: &Vec<ComplexSample>)
        requires
            old(self).wf(),
            input@.len() == old(self).parameters.fft_size,
        ensures
            final(self).wf(),
            final(self).parameters == old(self).parameters,
            final(self).result.fft_result@ == input@,
    {
        let n = self.parameters.fft_size;
        let mut i: usize = 0;
        while i < n
            invariant
                i <= n,
                input@.len() == n,
                self.result.fft_result@.len() == n,
                self.parameters == old(self).parameters,
                n == self.parameters.fft_size,
                forall|j: int| 0 <= j < i ==> self.result.fft_result@[j] == input@[j],
            decreases n - i,
        {
            let v = input[i];
            self.result.fft_result[i] = v;
            i = i + 1;
        }
        assert(self.result.fft_result@ =~= input@);
    }

    /// Consume one whole input block: load it into the spectrum buffer
    /// (`load_block` fixes that the block handed to the transform is
    /// exactly `input`) and forward-transform it in place. The result
    /// stays valid until the next call and is read through
    /// `intermediate`.
    pub fn process(&mut self, input: &Vec<ComplexSample>)
        requires
            old(self).wf(),
            input@.len() == old(self).parameters.fft_size,
        ensures
            final(self).wf(),
            final(self).parameters == old(self).parameters,
    {
        self.load_block(input);
        fft_forward_in_place(&mut self.result.fft_result);
    }

    /// The spectrum produced by the last `process` call.
    pub fn intermediate(&self) -> (r: &AnalysisIntermediateResult)
        ensures
            r == &self.result,
    {
        &self.result
    }
}

/// Configuration of one analysis output: the wideband bin its window is
/// centered on, and its weight vector, one weight per window bin. The
/// window width, the output transform size, is the weight vector's length.
pub struct AnalysisOutputParameters {
    pub center_bin: isize,
    pub weights: Vec<ComplexSample>,
}

impl AnalysisOutputParameters {
    /// The window must be even and positive, no wider than the wideband
    /// transform, and the center bin small enough that bin arithmetic
    /// stays inside `isize`.
    pub open spec fn wf(self, fft_size: int) -> bool {
        &&& 2 <= self.weights@.len()
        &&& self.weights@.len() % 2 == 0
        &&& self.weights@.len() <= fft_size
        &&& -(isize::MAX / 2) <= self.center_bin <= isize::MAX / 2
    }
}

/// The signed bin offset that output index `j` of a window of width `m`
/// stands for: indices below `m/2` are the non-negative offsets, the rest
/// the negative ones, so that DC lands at index 0.
pub open spec fn signed_bin_offset(m: int, j: int) -> int {
    if j < m / 2 {
        j
    } else {
        j - m
    }
}

/// The wideband bin that output index `j` reads: the center bin plus the
/// signed offset, reduced to `[0, n)` modulo the wideband size `n`.
pub open spec fn source_bin(n: int, center_bin: int, m: int, j: int) -> int {
    (center_bin + signed_bin_offset(m, j)) % n
}

/// One sub-channel's weighted bin window: entry `j` is the spectrum at
/// its source bin, scaled by weight `j`.
pub open spec fn gathered(
    spectrum: Seq<ComplexSample>,
    weights: Seq<ComplexSample>,
    center_bin: int,
) -> Seq<ComplexSample> {
    Seq::new(
        weights.len(),
        |j: int|
            scaled(weights[j], spectrum[source_bin(spectrum.len() as int, center_bin, weights.len() as int, j)]),
    )
}

/// Center bins that agree modulo the wideband size read the same source
/// bins, so they gather element-equal windows.
pub proof fn lemma_center_bin_mod(
    spectrum: Seq<ComplexSample>,
    weights: Seq<ComplexSample>,
    c1: int,
    c2: int,
)
    requires
        0 < spectrum.len(),
        c1 % (spectrum.len() as int) == c2 % (spectrum.len() as int),
    ensures
        gathered(spectrum, weights, c1) == gathered(spectrum, weights, c2),
{
    let n = spectrum.len() as int;
    assert forall|j: int| 0 <= j < weights.len() implies source_bin(n, c1, weights.len() as int, j)
        == source_bin(n, c2, weights.len() as int, j) by {
        let k = signed_bin_offset(weights.len() as int, j);
        vstd::arithmetic::div_mod::lemma_add_mod_noop(c1, k, n);
        vstd::arithmetic::div_mod::lemma_add_mod_noop(c2, k, n);
    }
    assert(gathered(spectrum, weights, c1) =~= gathered(spectrum, weights, c2));
}

/// Extracts one sub-channel per tick from the shared intermediate
/// spectrum.
pub struct AnalysisOutputProcessor {
    pub input_parameters: AnalysisInputParameters,
    pub parameters: AnalysisOutputParameters,
    pub buffer: Vec<ComplexSample>,
}

impl AnalysisOutputProcessor {
    /// The work buffer always holds one output transform.
    pub open spec fn wf(self) -> bool {
        &&& self.input_parameters.wf()
        &&& self.parameters.wf(self.input_parameters.fft_size as int)
        &&& self.buffer@.len() == self.parameters.weights@.len()
    }

    /// The output transform size: the width of the bin window.
    pub open spec fn ifft_size(self) -> int {
        self.parameters.weights@.len() as int
    }

    pub fn new(
        input_parameters: AnalysisInputParameters,
        parameters: AnalysisOutputParameters,
    ) -> (r: AnalysisOutputProcessor)
        requires
            input_parameters.wf(),
            parameters.wf(input_parameters.fft_size as int),
        ensures
            r.wf(),
            r.input_parameters == input_parameters,
            r.parameters == parameters,
    {
        let ifft_size = parameters.weights.len();
        let buffer = zero_block(ifft_size);
        AnalysisOutputProcessor { input_parameters, parameters, buffer }
    }

    /// Fill the work buffer with the weighted bin window around the
    /// center bin: entry `j` becomes the spectrum at the window's
    /// source bin `j`, scaled by weight `j`.
    pub fn gather_bins(&mut self, intermediate: &AnalysisIntermediateResult)
        requires
            old(self).wf(),
            intermediate.fft_result@.len() == old(self).input_parameters.fft_size,
        ensures
            final(self).wf(),
            final(self).input_parameters == old(self).input_parameters,
            final(self).parameters == old(self).parameters,
            final(self).buffer@ == gathered(
                intermediate.fft_result@,
                old(self).parameters.weights@,
                old(self).parameters.center_bin as int,
            ),
    {
        let n = self.input_parameters.fft_size;
        let m = self.parameters.weights.len();
        let half: usize = m / 2;
        let c = self.parameters.center_bin;
        let ghost spectrum = intermediate.fft_result@;
        let ghost weights = self.parameters.weights@;
        let mut j: usize = 0;
        while j < m
            invariant
                j <= m,
                self.wf(),
                self.input_parameters == old(self).input_parameters,
                self.parameters == old(self).parameters,
                n == self.input_parameters.fft_size,
                m == self.parameters.weights@.len(),
                half == m / 2,
                c == self.parameters.center_bin,
                spectrum == intermediate.fft_result@,
                weights == self.parameters.weights@,
                spectrum.len() == n,
                self.buffer@.len() == m,
                forall|i: int|
                    0 <= i < j ==> self.buffer@[i] == gathered(spectrum, weights, c as int)[i],
            decreases m - j,
        {
            let offset_bin: isize = if j < half {
                c + (j as isize)
            } else {
                c + (j as isize) - (m as isize)
            };
            let src = euclid_mod(offset_bin, n);
            let value = complex_scale(&self.parameters.weights[j], &intermediate.fft_result[src]);
            self.buffer[j] = value;
            j = j + 1;
        }
        assert(self.buffer@ =~= gathered(spectrum, weights, c as int));
    }

    /// Extract one sub-channel block: gather the weighted bin window,
    /// inverse-transform it in place, and return the middle half, the
    /// artifact-free portion under overlap-save. The output is exactly
    /// half an output transform long.
    pub fn process(&mut self, intermediate: &AnalysisIntermediateResult) -> (out: &[ComplexSample])
        requires
            old(self).wf(),
            intermediate.fft_result@.len() == old(self).input_parameters.fft_size,
        ensures
            final(self).wf(),
            final(self).input_parameters == old(self).input_parameters,
            final(self).parameters == old(self).parameters,
            out@ == middle_half(final(self).buffer@),
            out@.len() == old(self).ifft_size() / 2,
    {
        self.gather_bins(intermediate);
        fft_inverse_in_place(&mut self.buffer);
        let m = self.buffer.len();
        let start = m / 4;
        let len = m / 2;
        proof {
            crate::numeric::lemma_middle_half_bounds(m as nat);
        }
        &self.buffer.as_slice()[start..start + len]
    }
}

} // verus!
