//! Integer index arithmetic shared by the analysis and synthesis banks.
//!
//! Every mapping between wideband and sub-channel bin indexes uses the
//! Euclidean (non-negative) remainder, and every processor returns the
//! middle half of its inverse transform, the artifact-free portion under
//! overlap-save at a factor of 1/2.

use vstd::prelude::*;

verus! {

/// Euclidean remainder of `a` modulo `m`: the unique `r` in `[0, m)`
/// with `a == q * m + r` for an integer `q`. Spec-level `%` on `int`
/// already yields this for a positive modulus.
pub fn euclid_mod(a: isize, m: usize) -> (r: usize)
    requires
        0 < m,
    ensures
        r as int == (a as int) % (m as int),
        r < m,
{
    if a >= 0 {
        (a as usize) % m
    } else {
        let k: usize = (-(a + 1)) as usize;
        let rk: usize = k % m;
        proof {
            let x = a as int;
            let d = m as int;
            vstd::arithmetic::div_mod::lemma_fundamental_div_mod(k as int, d);
            // x == -(k + 1) == d * (-(k / d) - 1) + (d - 1 - k % d)
            assert((-((k as int) / d) - 1) * d == -(((k as int) / d) * d) - d)
                by (nonlinear_arith);
            vstd::arithmetic::div_mod::lemma_fundamental_div_mod_converse_mod(
                x,
                d,
                -((k as int) / d) - 1,
                d - 1 - (k as int) % d,
            );
        }
        m - 1 - rk
    }
}

/// The middle half of a block: for an even length `n`, the elements at
/// positions `[n/4, n/4 + n/2)`. For every even `n` this window equals
/// `[n/4, (3*n)/4)`, and its length is exactly `n/2`.
pub open spec fn middle_half(s: Seq<crate::sample::ComplexSample>) -> Seq<
    crate::sample::ComplexSample,
> {
    s.subrange((s.len() / 4) as int, (s.len() / 4 + s.len() / 2) as int)
}

/// For an even length the middle-half window lies inside the block,
/// ends at `(3*n)/4`, and has length `n/2`.
pub proof fn lemma_middle_half_bounds(n: nat)
    requires
        n % 2 == 0,
    ensures
        n / 4 + n / 2 <= n,
        n / 4 + n / 2 == (3 * n) / 4,
{
    assert(n / 4 + n / 2 <= n && n / 4 + n / 2 == (3 * n) / 4) by (nonlinear_arith)
        requires
            n % 2 == 0,
    ;
}

} // verus!
