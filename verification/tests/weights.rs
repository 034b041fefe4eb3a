//! Raised-cosine weight design.

use rustfft::num_complex::Complex32;
use sdrglue::weights::raised_cosine_weights;

/// The half-cosine transition values for a transition band of `t` bins:
/// `0.5 + 0.5 * cos(pi * (i + 1) / (t + 1))`, falling towards zero.
fn transition_table(t: usize) -> Vec<Complex32> {
    let mut v = Vec::new();
    for i in 0..t {
        let x = std::f32::consts::PI * (i + 1) as f32 / (t + 1) as f32;
        v.push(Complex32::new(0.5 + 0.5 * x.cos(), 0.0));
    }
    v
}

/// Default transition band width for size `n`: at most 15 bins.
fn default_transition(n: usize) -> usize {
    (n / 2 - 1).min(15)
}

#[test]
fn test_weights() {
    fn test(ifft_size: usize, passband_bins: Option<usize>, transition_bins: Option<usize>) {
        let t: usize = match transition_bins {
            Some(t) => t,
            None => default_transition(ifft_size),
        };
        let weights = raised_cosine_weights(ifft_size, passband_bins, transition_bins, &transition_table(t));
        println!("{:?}", weights);
        // Check that "DC" bin is 1.0
        assert!(weights[0] == Complex32::new(1.0, 0.0));
        // Check that it falls to zero at Nyquist frequency
        assert!(weights[ifft_size / 2] == Complex32::new(0.0, 0.0));
    }
    test(32, Some(9), Some(4));
    test(100, None, None);
    test(16, None, None);
}

#[test]
fn test_weights_deterministic() {
    let table = transition_table(default_transition(64));
    let w1 = raised_cosine_weights(64, None, None, &table);
    let w2 = raised_cosine_weights(64, None, None, &table);
    assert_eq!(w1.len(), w2.len());
    for i in 0..w1.len() {
        assert!(w1[i] == w2[i]);
    }
}

#[test]
fn test_weight_symmetry() {
    let table = transition_table(default_transition(16));
    let w = raised_cosine_weights(16, None, None, &table);
    assert_eq!(w.len(), 16);
    assert!(w[0] == Complex32::new(1.0, 0.0));
    assert!(w[8] == Complex32::new(0.0, 0.0));
    for i in 1..16 {
        assert!(w[i] == w[16 - i]);
    }
}

#[test]
fn test_trivial_size_two() {
    // The smallest design: one at DC, zero at Nyquist, nothing else.
    let w = raised_cosine_weights(2, None, None, &Vec::new());
    assert_eq!(w.len(), 2);
    assert!(w[0] == Complex32::new(1.0, 0.0));
    assert!(w[1] == Complex32::new(0.0, 0.0));
}

#[test]
fn test_transition_layout() {
    // Size 8 with a one-bin transition band: the default passband half
    // is (8 - 2 - 2) / 2 + 1 = 3, so indexes 0..3 and their mirrors are
    // one, index 3 and its mirror carry the single half-cosine value
    // 0.5, and the Nyquist bin is zero.
    let w = raised_cosine_weights(8, None, Some(1), &transition_table(1));
    let one = Complex32::new(1.0, 0.0);
    let zero = Complex32::new(0.0, 0.0);
    assert!(w[0] == one);
    assert!(w[1] == one && w[7] == one);
    assert!(w[2] == one && w[6] == one);
    assert!((w[3].re - 0.5).abs() < 1e-6 && w[3].im == 0.0);
    assert!(w[5] == w[3]);
    assert!(w[4] == zero);
}
