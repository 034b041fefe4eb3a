//! Fast-convolution filter bank for software-defined radio.
//!
//! The library splits one wideband stream of complex samples into many
//! narrowband sub-channels (analysis bank) and combines many narrowband
//! sub-channels into one wideband stream (synthesis bank), using
//! frequency-domain weighting with overlap-save at a fixed factor of 1/2.
//!
//! Complex samples are opaque to the verifier: the library proves the
//! structural discipline of the banks (buffer overlap, bin index
//! arithmetic, weight layout, the accumulator state machine, block and
//! output lengths), while the transforms and the per-sample arithmetic
//! are performed by `rustfft` behind trusted wrappers.

pub mod analysis;
pub mod buffer;
pub mod numeric;
pub mod rx;
pub mod sample;
pub mod sweep;
pub mod synthesis;
pub mod transform;
pub mod tx;
pub mod weights;

pub use sample::ComplexSample;
