//! Trusted wrappers around the `rustfft` transforms.
//!
//! The transforms run in place over a whole buffer. Which algorithm
//! `rustfft` picks, and therefore the exact rounding of the result, can
//! differ between machines, so nothing names the resulting samples: the
//! wrappers promise only what holds of every outcome, that the buffer
//! keeps its length. Every function that consumes a spectrum takes it as
//! an argument and is verified for all values of it.
//!
//! A transform plan is a trait object the verifier cannot hold in a
//! field, so each call plans and runs in one step; `rustfft`'s planner
//! makes this a lookup plus the twiddle setup, redone per tick.

use vstd::prelude::*;

use crate::sample::ComplexSample;

verus! {

/// Relies on `rustfft::FftPlanner::plan_fft_forward` and `rustfft::Fft::process`:
/// an in-place forward transform of the whole buffer. `process` panics
/// only when the buffer length is not a positive multiple of the planned
/// length; the plan is made for exactly this length, which must not be zero.
#[verifier::external_body]
pub fn fft_forward_in_place(buffer: &mut Vec<ComplexSample>)
    requires
        old(buffer)@.len() >= 1,
    ensures
        final(buffer)@.len() == old(buffer)@.len(),
{
    let mut planner = rustfft::FftPlanner::new();
    let plan = planner.plan_fft_forward(buffer.len());
    plan.process(buffer.as_mut_slice());
}

/// Relies on `rustfft::FftPlanner::plan_fft_inverse` and `rustfft::Fft::process`:
/// an in-place inverse transform of the whole buffer. `process` panics
/// only when the buffer length is not a positive multiple of the planned
/// length; the plan is made for exactly this length, which must not be zero.
#[verifier::external_body]
pub fn fft_inverse_in_place(buffer: &mut Vec<ComplexSample>)
    requires
        old(buffer)@.len() >= 1,
    ensures
        final(buffer)@.len() == old(buffer)@.len(),
{
    let mut planner = rustfft::FftPlanner::new();
    let plan = planner.plan_fft_inverse(buffer.len());
    plan.process(buffer.as_mut_slice());
}

} // verus!
