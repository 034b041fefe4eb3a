//! The complex sample type and the trusted per-sample operations.
//!
//! A sample is a pair of 32-bit IEEE-754 reals, the `Complex32` type of
//! the `num_complex` crate re-exported by `rustfft`. The verifier treats
//! a sample as an opaque value: the library never reads its parts, it
//! only moves samples between buffers and combines them through the
//! wrappers below. The results of the arithmetic wrappers are named by
//! uninterpreted spec functions, so every contract downstream speaks of
//! those names exactly.

use vstd::prelude::*;

verus! {

/// One complex sample, opaque to the verifier.
pub type ComplexSample = rustfft::num_complex::Complex32;

#[verifier::external_type_specification]
#[verifier::external_body]
#[verifier::reject_recursive_types(T)]
pub struct ExComplex<T>(rustfft::num_complex::Complex<T>);

/// Holds of the additive zero sample (both parts zero).
pub uninterp spec fn zero_sample(c: ComplexSample) -> bool;

/// Holds of the multiplicative unit sample (real part one, imaginary part zero).
pub uninterp spec fn unit_sample(c: ComplexSample) -> bool;

/// The sample `s` scaled by the real part of the weight `w`.
pub uninterp spec fn scaled(w: ComplexSample, s: ComplexSample) -> ComplexSample;

/// The elementwise sum of two samples.
pub uninterp spec fn csum(a: ComplexSample, b: ComplexSample) -> ComplexSample;

/// The zero sample as a spec-level value: the one sample of which
/// `zero_sample` holds. Every call of `complex_zero` returns this value.
pub closed spec fn zero_value() -> ComplexSample {
    choose|c: ComplexSample| zero_sample(c)
}

/// The unit sample as a spec-level value: the one sample of which
/// `unit_sample` holds. Every call of `complex_one` returns this value.
pub closed spec fn one_value() -> ComplexSample {
    choose|c: ComplexSample| unit_sample(c)
}

/// Holds when every element of `s` is the zero sample.
pub open spec fn all_zero(s: Seq<ComplexSample>) -> bool {
    forall|i: int| 0 <= i < s.len() ==> s[i] == zero_value() && zero_sample(#[trigger] s[i])
}

/// Relies on `num_traits::Zero::zero` for `Complex32`: returns the sample
/// with both parts zero. The call is a constant function, so every call
/// returns the same value, the one named `zero_value`.
#[verifier::external_body]
pub fn complex_zero() -> (r: ComplexSample)
    ensures
        zero_sample(r),
        r == zero_value(),
{
    rustfft::num_traits::Zero::zero()
}

/// Relies on `num_traits::One::one` for `Complex32`: returns the sample
/// with real part one and imaginary part zero. The call is a constant
/// function, so every call returns the same value, the one named
/// `one_value`.
#[verifier::external_body]
pub fn complex_one() -> (r: ComplexSample)
    ensures
        unit_sample(r),
        r == one_value(),
{
    rustfft::num_traits::One::one()
}

/// A freshly allocated block of `n` zero samples.
pub fn zero_block(n: usize) -> (v: Vec<ComplexSample>)
    ensures
        v@.len() == n,
        all_zero(v@),
{
    let mut v: Vec<ComplexSample> = Vec::new();
    let mut i: usize = 0;
    while i < n
        invariant
            i <= n,
            v@.len() == i,
            all_zero(v@),
        decreases n - i,
    {
        v.push(complex_zero());
        i = i + 1;
    }
    v
}

/// Relies on `num_complex`'s scalar multiplication of a complex number by
/// a real: both parts of `s` are multiplied by the real part of `w`.
/// IEEE-754 multiplication is exactly determined by its operands for
/// every numeric result; only the payload of a NaN produced from
/// non-finite inputs is left open, and the library never reads a
/// sample's parts, so nothing downstream rests on that edge.
#[verifier::external_body]
pub fn complex_scale(w: &ComplexSample, s: &ComplexSample) -> (r: ComplexSample)
    ensures
        r == scaled(*w, *s),
{
    *s * w.re
}

/// Relies on `num_complex`'s addition: the parts are added elementwise.
/// IEEE-754 addition is exactly determined by its operands for every
/// numeric result; only the payload of a NaN produced from non-finite
/// inputs is left open, and the library never reads a sample's parts,
/// so nothing downstream rests on that edge.
#[verifier::external_body]
pub fn complex_add(a: &ComplexSample, b: &ComplexSample) -> (r: ComplexSample)
    ensures
        r == csum(*a, *b),
{
    *a + *b
}

} // verus!
