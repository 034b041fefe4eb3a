//! Receive-side orchestration: one wideband analysis bank fanning out to
//! any number of per-channel processors.

use vstd::prelude::*;

use crate::analysis::{
    AnalysisInputParameters, AnalysisInputProcessor, AnalysisIntermediateResult,
    AnalysisOutputParameters, AnalysisOutputProcessor,
};
use crate::buffer::{filled, slid, InputBuffer};
use crate::sample::ComplexSample;

verus! {

/// A receive channel processor: consumes one sub-channel block per tick.
/// The set of concrete demodulators is open; implementations live with
/// the host, which also knows their sample rates and center frequencies.
pub trait RxChannelProcessor {
    /// Process one block of sub-channel samples.
    fn process(&mut self, samples: &[ComplexSample]);
}

/// One receive channel: an analysis output processor feeding one channel
/// processor.
pub struct RxChannel {
    pub fcfb_output: AnalysisOutputProcessor,
    pub processor: Box<dyn RxChannelProcessor>,
}

impl RxChannel {
    /// The channel is ready for spectra of its bank's transform size.
    pub open spec fn wf(self) -> bool {
        self.fcfb_output.wf()
    }

    pub fn new(
        analysis_in_params: AnalysisInputParameters,
        parameters: AnalysisOutputParameters,
        processor: Box<dyn RxChannelProcessor>,
    ) -> (r: RxChannel)
        requires
            analysis_in_params.wf(),
            parameters.wf(analysis_in_params.fft_size as int),
        ensures
            r.wf(),
            r.fcfb_output.input_parameters == analysis_in_params,
            r.fcfb_output.parameters == parameters,
    {
        RxChannel { fcfb_output: AnalysisOutputProcessor::new(analysis_in_params, parameters), processor }
    }

    /// Extract this channel's sub-channel block from the shared spectrum
    /// and hand it to the channel processor.
    pub fn process(&mut self, intermediate: &AnalysisIntermediateResult)
        requires
            old(self).wf(),
            intermediate.fft_result@.len() == old(self).fcfb_output.input_parameters.fft_size,
        ensures
            final(self).wf(),
            final(self).fcfb_output.input_parameters == old(self).fcfb_output.input_parameters,
            final(self).fcfb_output.parameters == old(self).fcfb_output.parameters,
    {
        let out = self.fcfb_output.process(intermediate);
        self.processor.process(out);
    }
}

/// Everything on the receive path: the analysis bank, its overlap-save
/// input buffer, and the receive channels.
pub struct RxDsp {
    pub analysis_params: AnalysisInputParameters,
    pub analysis_bank: AnalysisInputProcessor,
    pub input_buffer: InputBuffer,
    pub processors: Vec<RxChannel>,
}

impl RxDsp {
    /// The bank, the buffer and every channel agree on the wideband
    /// transform size.
    pub open spec fn wf(self) -> bool {
        &&& self.analysis_params.wf()
        &&& self.analysis_bank.wf()
        &&& self.analysis_bank.parameters == self.analysis_params
        &&& self.input_buffer.wf()
        &&& self.input_buffer.samples@.len() == self.analysis_params.fft_size
        &&& forall|k: int|
            0 <= k < self.processors@.len() ==> (#[trigger] self.processors@[k]).wf()
                && self.processors@[k].fcfb_output.input_parameters == self.analysis_params
    }

    pub fn new(analysis_params: AnalysisInputParameters) -> (r: RxDsp)
        requires
            analysis_params.wf(),
        ensures
            r.wf(),
            r.analysis_params == analysis_params,
            r.processors@.len() == 0,
            crate::sample::all_zero(r.input_buffer.samples@),
    {
        let analysis_bank = AnalysisInputProcessor::new(analysis_params);
        let input_buffer = analysis_bank.make_input_buffer();
        RxDsp { analysis_params, analysis_bank, input_buffer, processors: Vec::new() }
    }

    /// Add one receive channel configured for this bank.
    pub fn add_channel(&mut self, channel: RxChannel)
        requires
            old(self).wf(),
            channel.wf(),
            channel.fcfb_output.input_parameters == old(self).analysis_params,
        ensures
            final(self).wf(),
            final(self).analysis_params == old(self).analysis_params,
            final(self).processors@.len() == old(self).processors@.len() + 1,
    {
        self.processors.push(channel);
    }

    /// Start a tick: slide the buffer's overlap region to the front.
    pub fn prepare_input_buffer(&mut self)
        requires
            old(self).wf(),
        ensures
            final(self).wf(),
            final(self).analysis_params == old(self).analysis_params,
            final(self).processors@ == old(self).processors@,
            final(self).input_buffer.samples@ == slid(
                old(self).input_buffer.samples@,
                old(self).input_buffer.size.new as int,
                old(self).input_buffer.size.overlap as int,
            ),
    {
        self.input_buffer.prepare_for_new_samples();
    }

    /// Accept the fresh samples the source produced for this tick.
    pub fn write_input_samples(&mut self, fresh: &[ComplexSample])
        requires
            old(self).wf(),
            fresh@.len() == old(self).input_buffer.size.new,
        ensures
            final(self).wf(),
            final(self).analysis_params == old(self).analysis_params,
            final(self).processors@ == old(self).processors@,
            final(self).input_buffer.samples@ == filled(
                old(self).input_buffer.samples@,
                fresh@,
                old(self).input_buffer.size.overlap as int,
            ),
    {
        self.input_buffer.write_new_samples(fresh);
    }

    /// Run one tick: transform the buffered input block and fan the
    /// shared spectrum out to every receive channel.
    pub fn process(&mut self)
        requires
            old(self).wf(),
        ensures
            final(self).wf(),
            final(self).analysis_params == old(self).analysis_params,
            final(self).processors@.len() == old(self).processors@.len(),
            final(self).input_buffer == old(self).input_buffer,
    {
        self.analysis_bank.process(self.input_buffer.buffer());
        let n = self.processors.len();
        let mut i: usize = 0;
        while i < n
            invariant
                i <= n,
                self.wf(),
                self.analysis_params == old(self).analysis_params,
                self.input_buffer == old(self).input_buffer,
                n == self.processors@.len(),
            decreases n - i,
        {
            let intermediate = self.analysis_bank.intermediate();
            self.processors[i].process(intermediate);
            i = i + 1;
        }
    }
}

} // verus!
