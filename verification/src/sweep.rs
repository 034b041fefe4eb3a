//! The counting core of the frequency sweep generator.
//!
//! A sweep runs over `sweep_length` samples whose instantaneous
//! frequency rises linearly; after the last sample the sweep starts
//! over. The sample counter and its wrap-around live here; the phase
//! accumulator and the sine and cosine of each sample are real
//! arithmetic and live with the host.

use vstd::prelude::*;

verus! {

/// The position of a sweep within its cycle.
pub struct SweepGenerator {
    /// Length of a sweep in samples.
    pub sweep_length: u64,
    /// Number of samples produced for the current sweep.
    pub sample_counter: u64,
}

impl SweepGenerator {
    /// The counter never reaches the sweep length.
    pub open spec fn wf(self) -> bool {
        &&& 1 <= self.sweep_length
        &&& self.sample_counter < self.sweep_length
    }

    pub fn new(sweep_length: u64) -> (r: SweepGenerator)
        requires
            1 <= sweep_length,
        ensures
            r.wf(),
            r.sweep_length == sweep_length,
            r.sample_counter == 0,
    {
        SweepGenerator { sweep_length, sample_counter: 0 }
    }

    /// Consume one sample position: return the index of the sample to
    /// produce and advance the counter, wrapping to zero after the last
    /// sample of the sweep.
    pub fn step(&mut self) -> (n: u64)
        requires
            old(self).wf(),
        ensures
            final(self).wf(),
            final(self).sweep_length == old(self).sweep_length,
            n == old(self).sample_counter,
            final(self).sample_counter as int == (old(self).sample_counter + 1) % (
            old(self).sweep_length as int),
            old(self).sample_counter + 1 == old(self).sweep_length ==> final(self).sample_counter
                == 0,
    {
        let n = self.sample_counter;
        self.sample_counter = self.sample_counter + 1;
        if self.sample_counter >= self.sweep_length {
            self.sample_counter = 0;
        }
        proof {
            if old(self).sample_counter + 1 == old(self).sweep_length {
                vstd::arithmetic::div_mod::lemma_mod_self_0(old(self).sweep_length as int);
            } else {
                vstd::arithmetic::div_mod::lemma_small_mod(
                    (old(self).sample_counter + 1) as nat,
                    old(self).sweep_length as nat,
                );
            }
        }
        n
    }
}

} // verus!
