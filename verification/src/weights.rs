//! Raised-cosine weight vectors for the filter banks.
//!
//! A weight vector of even length `n` uses the DC-at-index-0 convention:
//! index 0 is the DC bin, indices `1..n/2` the positive frequencies and
//! `n/2+1..n` their mirror. The passband is flat at one, falls off over
//! `transition_bins` half-cosine values, and is zero elsewhere, so the
//! vector is symmetric about DC, one at DC and zero at Nyquist.
//!
//! The half-cosine transition values themselves are real arithmetic the
//! verifier has no theory for; the caller supplies them as one sample per
//! transition bin, and this module proves where every value lands.

use vstd::prelude::*;

use crate::sample::{complex_one, one_value, zero_block, zero_value, ComplexSample};

verus! {

/// Transition band width in bins: the given count, or at most 15 bins,
/// never more than the positive-frequency half minus the DC bin.
pub open spec fn spec_transition_count(n: int, transition_bins: Option<usize>) -> int {
    match transition_bins {
        Some(t) => t as int,
        None => if n / 2 - 1 < 15 {
            n / 2 - 1
        } else {
            15
        },
    }
}

/// Half the passband width in bins, counting the DC bin: the given count
/// halved plus the DC bin, or everything the transition bands leave free.
pub open spec fn spec_passband_half(n: int, passband_bins: Option<usize>, t: int) -> int {
    match passband_bins {
        Some(p) => p as int / 2 + 1,
        None => (n - 2 - 2 * t) / 2 + 1,
    }
}

/// The sizes a raised-cosine design accepts: an even length of at least
/// two, and bands that fit the positive-frequency half.
pub open spec fn raised_cosine_args_wf(
    n: int,
    passband_bins: Option<usize>,
    transition_bins: Option<usize>,
) -> bool {
    let t = spec_transition_count(n, transition_bins);
    let ph = spec_passband_half(n, passband_bins, t);
    &&& 2 <= n
    &&& n % 2 == 0
    &&& (passband_bins is None ==> 2 + 2 * t <= n)
    &&& ph + t <= n / 2
}

/// Distance of index `i` from the DC bin, counting the mirror halves as
/// one: `i` itself in the positive-frequency half, `n - i` in the mirror.
pub open spec fn bin_distance(n: int, i: int) -> int {
    if i <= n - i {
        i
    } else {
        n - i
    }
}

/// The weight at index `i`: one across the passband, the supplied
/// transition value over the transition band, zero elsewhere.
pub open spec fn raised_cosine_entry(
    n: int,
    ph: int,
    t: int,
    tv: Seq<ComplexSample>,
    i: int,
) -> ComplexSample {
    let d = bin_distance(n, i);
    if d < ph {
        one_value()
    } else if d < ph + t {
        tv[d - ph]
    } else {
        zero_value()
    }
}

/// The whole raised-cosine weight vector as a sequence.
pub open spec fn raised_cosine_spec(n: int, ph: int, t: int, tv: Seq<ComplexSample>) -> Seq<
    ComplexSample,
> {
    Seq::new(n as nat, |i: int| raised_cosine_entry(n, ph, t, tv, i))
}

/// Design raised-cosine weights for a given size, passband width and
/// transition band width (both in bins, `None` for the defaults). The
/// caller supplies the half-cosine transition values, one per transition
/// bin, falling from the passband edge towards zero.
pub fn raised_cosine_weights(
    ifft_size: usize,
    passband_bins: Option<usize>,
    transition_bins: Option<usize>,
    transition_values: &Vec<ComplexSample>,
) -> (w: Vec<ComplexSample>)
    requires
        raised_cosine_args_wf(ifft_size as int, passband_bins, transition_bins),
        transition_values@.len() == spec_transition_count(ifft_size as int, transition_bins),
    ensures
        w@ == raised_cosine_spec(
            ifft_size as int,
            spec_passband_half(
                ifft_size as int,
                passband_bins,
                spec_transition_count(ifft_size as int, transition_bins),
            ),
            spec_transition_count(ifft_size as int, transition_bins),
            transition_values@,
        ),
        w@.len() == ifft_size,
{
    let n = ifft_size;
    let t: usize = match transition_bins {
        Some(tb) => tb,
        None => {
            let cap = n / 2 - 1;
            if cap < 15 {
                cap
            } else {
                15
            }
        },
    };
    let ph: usize = match passband_bins {
        Some(p) => p / 2 + 1,
        None => (n - 2 - 2 * t) / 2 + 1,
    };
    let ghost phi = ph as int;
    let ghost ti = t as int;
    let ghost tv = transition_values@;

    let mut w = zero_block(n);
    let mut i: usize = 0;
    while i < ph
        invariant
            raised_cosine_args_wf(n as int, passband_bins, transition_bins),
            phi == spec_passband_half(n as int, passband_bins, ti),
            ti == spec_transition_count(n as int, transition_bins),
            ph == phi,
            t == ti,
            i <= ph,
            phi + ti <= n / 2,
            2 <= n,
            w@.len() == n,
            forall|j: int|
                0 <= j < n && bin_distance(n as int, j) < i ==> w@[j] == one_value(),
            forall|j: int|
                0 <= j < n && bin_distance(n as int, j) >= i ==> w@[j] == zero_value(),
        decreases ph - i,
    {
        let one = complex_one();
        w[i] = one;
        if i != 0 {
            w[n - i] = one;
        }
        i = i + 1;
    }
    let mut k: usize = 0;
    while k < t
        invariant
            raised_cosine_args_wf(n as int, passband_bins, transition_bins),
            phi == spec_passband_half(n as int, passband_bins, ti),
            ti == spec_transition_count(n as int, transition_bins),
            ph == phi,
            t == ti,
            k <= t,
            phi + ti <= n / 2,
            2 <= n,
            1 <= ph,
            w@.len() == n,
            tv.len() == ti,
            tv == transition_values@,
            forall|j: int|
                0 <= j < n && bin_distance(n as int, j) < phi ==> w@[j] == one_value(),
            forall|j: int|
                0 <= j < n && phi <= bin_distance(n as int, j) < phi + k ==> w@[j] == tv[
                    bin_distance(n as int, j) - phi
                ],
            forall|j: int|
                0 <= j < n && bin_distance(n as int, j) >= phi + k ==> w@[j] == zero_value(),
        decreases t - k,
    {
        let v = transition_values[k];
        let j = ph + k;
        w[j] = v;
        w[n - j] = v;
        k = k + 1;
    }
    assert(w@ =~= raised_cosine_spec(n as int, phi, ti, tv));
    w
}

/// Weight symmetry: a raised-cosine vector is one at DC, mirror-symmetric
/// about DC, and zero at the Nyquist bin.
pub proof fn lemma_weight_symmetry(n: int, ph: int, t: int, tv: Seq<ComplexSample>)
    requires
        2 <= n,
        n % 2 == 0,
        1 <= ph,
        0 <= t,
        ph + t <= n / 2,
    ensures
        raised_cosine_spec(n, ph, t, tv)[0] == one_value(),
        raised_cosine_spec(n, ph, t, tv)[n / 2] == zero_value(),
        forall|i: int|
            1 <= i < n ==> #[trigger] raised_cosine_spec(n, ph, t, tv)[i] == raised_cosine_spec(
                n,
                ph,
                t,
                tv,
            )[n - i],
{
}

/// The smallest design is trivial: a vector of length two is one at DC
/// and zero at Nyquist, a single-bin extractor.
pub proof fn lemma_trivial_weights(tv: Seq<ComplexSample>)
    ensures
        raised_cosine_spec(2, 1, 0, tv) =~= seq![one_value(), zero_value()],
{
    lemma_weight_symmetry(2, 1, 0, tv);
}

/// Two raised-cosine designs from the same arguments are element-equal.
pub proof fn lemma_raised_cosine_deterministic(
    w1: Seq<ComplexSample>,
    w2: Seq<ComplexSample>,
    n: int,
    ph: int,
    t: int,
    tv: Seq<ComplexSample>,
)
    requires
        w1 == raised_cosine_spec(n, ph, t, tv),
        w2 == raised_cosine_spec(n, ph, t, tv),
    ensures
        w1 == w2,
{
}

} // verus!
