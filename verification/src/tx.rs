//! Transmit-side orchestration: any number of per-channel sources
//! feeding one wideband synthesis bank.

use vstd::prelude::*;

use crate::buffer::InputBuffer;
use crate::sample::{zero_block, ComplexSample};
use crate::synthesis::{
    SynthesisInputParameters, SynthesisInputProcessor, SynthesisOutputParameters,
    SynthesisOutputProcessor,
};

verus! {

/// A transmit channel processor: produces one sub-channel block per
/// tick, filling the whole block it is handed. The set of concrete
/// modulators is open; implementations live with the host, which also
/// knows their sample rates and center frequencies.
pub trait TxChannelProcessor {
    /// Fill the whole block with new transmit samples.
    fn process(&mut self, samples: &mut Vec<ComplexSample>);
}

/// One transmit channel: a channel processor feeding a synthesis input
/// processor through an overlap-save buffer.
pub struct TxChannel {
    pub synth_input: SynthesisInputProcessor,
    pub processor: Box<dyn TxChannelProcessor>,
    /// Overlap-save buffer between the channel processor and the bank.
    pub buffer: InputBuffer,
    /// The block the channel processor fills each tick. The buffer's
    /// fresh region cannot be lent out to the processor directly, so the
    /// samples pass through this block on their way in.
    pub fresh: Vec<ComplexSample>,
}

impl TxChannel {
    /// The sub-channel transform, the buffer and the scratch block agree
    /// on the sub-channel's block geometry.
    pub open spec fn wf(self, ifft_size: int) -> bool {
        &&& self.synth_input.wf(ifft_size)
        &&& self.buffer.wf()
        &&& self.buffer.size.new as int == self.synth_input.fft_size() / 2
        &&& self.fresh@.len() == self.buffer.size.new
    }

    pub fn new(
        synth_params: SynthesisOutputParameters,
        parameters: SynthesisInputParameters,
        processor: Box<dyn TxChannelProcessor>,
    ) -> (r: TxChannel)
        requires
            synth_params.wf(),
            parameters.wf(synth_params.ifft_size as int),
        ensures
            r.wf(synth_params.ifft_size as int),
            r.synth_input.weights == parameters.weights,
    {
        let fcfb_input = SynthesisInputProcessor::new(synth_params, parameters);
        let buffer = fcfb_input.make_input_buffer();
        let fresh = zero_block(buffer.size.new);
        TxChannel { synth_input: fcfb_input, processor, buffer, fresh }
    }

    /// Run one tick of this channel: ask the processor for fresh
    /// samples, push them through the overlap-save buffer and the
    /// synthesis input processor, and deposit the spectrum into the
    /// shared accumulator.
    pub fn process(&mut self, synth: &mut SynthesisOutputProcessor)
        requires
            old(synth).wf(),
            old(self).wf(old(synth).parameters.ifft_size as int),
        ensures
            final(synth).wf(),
            final(synth).parameters == old(synth).parameters,
            final(synth).buffer_state is Input,
            final(self).wf(old(synth).parameters.ifft_size as int),
            final(self).synth_input.weights == old(self).synth_input.weights,
            final(self).synth_input.result.offset == old(self).synth_input.result.offset,
            final(synth).buffer@ == crate::synthesis::deposited(
                if old(synth).buffer_state is Output {
                    crate::synthesis::zero_seq(old(synth).parameters.ifft_size as int)
                } else {
                    old(synth).buffer@
                },
                final(self).synth_input.result.fft_result@,
                final(self).synth_input.result.offset as int,
            ),
    {
        self.processor.process(&mut self.fresh);
        let expected = self.buffer.size.new;
        if self.fresh.len() != expected {
            // The processor was supposed to fill the block in place,
            // and a fixed-size block API would leave it no other
            // choice; one handed a growable block could still resize
            // it, and such a block is replaced by silence.
            self.fresh = zero_block(expected);
        }
        self.buffer.prepare_for_new_samples();
        self.buffer.write_new_samples(self.fresh.as_slice());
        self.synth_input.process(self.buffer.buffer());
        synth.add(self.synth_input.intermediate());
    }
}

/// Everything on the transmit path: the synthesis bank and the transmit
/// channels feeding it.
pub struct TxDsp {
    pub synth_params: SynthesisOutputParameters,
    pub synth_bank: SynthesisOutputProcessor,
    pub processors: Vec<TxChannel>,
}

impl TxDsp {
    /// The bank and every channel agree on the wideband transform size.
    pub open spec fn wf(self) -> bool {
        &&& self.synth_params.wf()
        &&& self.synth_bank.wf()
        &&& self.synth_bank.parameters == self.synth_params
        &&& forall|k: int|
            0 <= k < self.processors@.len() ==> (#[trigger] self.processors@[k]).wf(
                self.synth_params.ifft_size as int,
            )
    }

    pub fn new(synth_params: SynthesisOutputParameters) -> (r: TxDsp)
        requires
            synth_params.wf(),
        ensures
            r.wf(),
            r.synth_params == synth_params,
            r.processors@.len() == 0,
            r.synth_bank.buffer_state is Clear,
            crate::sample::all_zero(r.synth_bank.buffer@),
    {
        let synth_bank = SynthesisOutputProcessor::new(synth_params);
        TxDsp { synth_params, synth_bank, processors: Vec::new() }
    }

    /// Add one transmit channel configured for this bank.
    pub fn add_channel(&mut self, channel: TxChannel)
        requires
            old(self).wf(),
            channel.wf(old(self).synth_params.ifft_size as int),
        ensures
            final(self).wf(),
            final(self).synth_params == old(self).synth_params,
            final(self).processors@.len() == old(self).processors@.len() + 1,
    {
        self.processors.push(channel);
    }

    /// Run one tick: let every channel deposit its spectrum, then
    /// produce the wideband output block, exactly half a transform long.
    pub fn process(&mut self) -> (out: &[ComplexSample])
        requires
            old(self).wf(),
        ensures
            final(self).wf(),
            final(self).synth_params == old(self).synth_params,
            final(self).processors@.len() == old(self).processors@.len(),
            out@.len() == old(self).synth_params.ifft_size / 2,
            out@ == crate::numeric::middle_half(final(self).synth_bank.buffer@),
            old(self).processors@.len() > 0 ==> final(self).synth_bank.buffer_state is Output,
            old(self).processors@.len() == 0 ==> final(self).synth_bank.buffer_state
                == crate::synthesis::next_buffer_state(old(self).synth_bank.buffer_state),
            old(self).processors@.len() == 0 && !(old(self).synth_bank.buffer_state is Input)
                ==> crate::sample::all_zero(out@),
    {
        let n = self.processors.len();
        let mut i: usize = 0;
        while i < n
            invariant
                i <= n,
                self.wf(),
                self.synth_params == old(self).synth_params,
                n == self.processors@.len(),
                self.synth_bank.buffer_state == old(self).synth_bank.buffer_state || i > 0,
                i > 0 ==> self.synth_bank.buffer_state is Input,
            decreases n - i,
        {
            self.processors[i].process(&mut self.synth_bank);
            i = i + 1;
        }
        self.synth_bank.process()
    }
}

} // verus!
