//! The synthesis filter bank: deposit arithmetic, the accumulator state
//! machine, and the round trip through an analysis bank.

use rustfft::num_complex::Complex32;
use sdrglue::analysis::{
    AnalysisInputParameters, AnalysisInputProcessor, AnalysisOutputParameters,
    AnalysisOutputProcessor,
};
use sdrglue::synthesis::{
    SynthesisInputParameters, SynthesisInputProcessor, SynthesisOutputParameters,
    SynthesisOutputProcessor,
};

fn zero() -> Complex32 {
    Complex32::new(0.0, 0.0)
}

fn one() -> Complex32 {
    Complex32::new(1.0, 0.0)
}

/// Unnormalized inverse DFT of `spectrum`, computed the slow way.
fn naive_inverse_dft(spectrum: &[Complex32]) -> Vec<Complex32> {
    let n: usize = spectrum.len();
    let mut out = Vec::new();
    for t in 0..n {
        let mut re = 0.0f64;
        let mut im = 0.0f64;
        for (k, v) in spectrum.iter().enumerate() {
            let phase = 2.0 * std::f64::consts::PI * (k * t) as f64 / n as f64;
            let (s, c) = phase.sin_cos();
            re += v.re as f64 * c - v.im as f64 * s;
            im += v.re as f64 * s + v.im as f64 * c;
        }
        out.push(Complex32::new(re as f32, im as f32));
    }
    out
}

#[test]
fn test_accumulator_idle() {
    // A tick with no inputs returns zeros; and if `add` is never called
    // between two `process` calls, the second returns zeros again
    // rather than the stale block.
    let mut acc = SynthesisOutputProcessor::new(SynthesisOutputParameters { ifft_size: 8 });
    let out: Vec<Complex32> = acc.process().to_vec();
    assert_eq!(out.len(), 4);
    for v in out.iter() {
        assert!(*v == zero());
    }

    let mut sy_input = SynthesisInputProcessor::new(
        SynthesisOutputParameters { ifft_size: 8 },
        SynthesisInputParameters { center_bin: 2, weights: vec![one(), one(), zero(), one()] },
    );
    sy_input.process(&vec![one(), zero(), zero(), zero()]);
    acc.add(sy_input.intermediate());
    let busy: Vec<Complex32> = acc.process().to_vec();
    assert!(busy.iter().any(|v| v.norm() > 1e-6));
    let idle: Vec<Complex32> = acc.process().to_vec();
    assert_eq!(idle.len(), 4);
    for v in idle.iter() {
        assert!(*v == zero());
    }
}

#[test]
fn test_add_order_invariance() {
    // Two sub-channels added in either order accumulate to the same
    // output block.
    let out_params = SynthesisOutputParameters { ifft_size: 8 };
    let mut in_a = SynthesisInputProcessor::new(
        out_params,
        SynthesisInputParameters { center_bin: 2, weights: vec![one(), one(), zero(), one()] },
    );
    let mut in_b = SynthesisInputProcessor::new(
        out_params,
        SynthesisInputParameters { center_bin: 5, weights: vec![one(), one(), zero(), one()] },
    );
    let block_a = vec![
        Complex32::new(0.5, -0.25),
        Complex32::new(1.5, 0.75),
        Complex32::new(-0.5, 0.25),
        Complex32::new(0.25, 1.0),
    ];
    let block_b = vec![
        Complex32::new(-1.0, 0.5),
        Complex32::new(0.125, 2.0),
        Complex32::new(0.75, -0.375),
        Complex32::new(1.0, 1.0),
    ];

    let mut acc_ab = SynthesisOutputProcessor::new(out_params);
    in_a.process(&block_a);
    acc_ab.add(in_a.intermediate());
    in_b.process(&block_b);
    acc_ab.add(in_b.intermediate());
    let out_ab: Vec<Complex32> = acc_ab.process().to_vec();

    let mut acc_ba = SynthesisOutputProcessor::new(out_params);
    in_b.process(&block_b);
    acc_ba.add(in_b.intermediate());
    in_a.process(&block_a);
    acc_ba.add(in_a.intermediate());
    let out_ba: Vec<Complex32> = acc_ba.process().to_vec();

    assert_eq!(out_ab.len(), out_ba.len());
    for i in 0..out_ab.len() {
        assert!(out_ab[i] == out_ba[i]);
    }
}

#[test]
fn test_deposit_offset() {
    // A sub-channel of size 4 at center bin 2 of an 8-point bank
    // deposits at offset (2 - 2) mod 8 == 0. An impulse input has the
    // all-ones spectrum; after weighting by [1, 1, 0, 1] and the half
    // swap the deposited window is [0, 1, 1, 1], and the bank's output
    // is the middle half of its unnormalized inverse transform.
    let out_params = SynthesisOutputParameters { ifft_size: 8 };
    let mut sy_input = SynthesisInputProcessor::new(
        out_params,
        SynthesisInputParameters { center_bin: 2, weights: vec![one(), one(), zero(), one()] },
    );
    assert_eq!(sy_input.intermediate().offset, 0);

    sy_input.process(&vec![one(), zero(), zero(), zero()]);
    let expected_window = [zero(), one(), one(), one()];
    assert_eq!(sy_input.intermediate().fft_result.len(), 4);
    for i in 0..4 {
        assert!(sy_input.intermediate().fft_result[i] == expected_window[i]);
    }

    let mut acc = SynthesisOutputProcessor::new(out_params);
    acc.add(sy_input.intermediate());
    let out: Vec<Complex32> = acc.process().to_vec();
    let full = naive_inverse_dft(&[zero(), one(), one(), one(), zero(), zero(), zero(), zero()]);
    assert_eq!(out.len(), 4);
    for i in 0..4 {
        assert!((out[i] - full[2 + i]).norm() < 1e-4);
    }
}

#[test]
fn test_synthesis_output_length() {
    for ifft_size in [2usize, 4, 10, 16] {
        let mut acc = SynthesisOutputProcessor::new(SynthesisOutputParameters { ifft_size });
        let out = acc.process();
        assert_eq!(out.len(), ifft_size / 2);
    }
}

#[test]
fn test_identity_pipeline() {
    // A synthesis bank fed one sub-channel of its own size at center
    // bin 0 with all-pass weights, followed by a matching analysis
    // bank, reproduces the input up to the transform gain and the
    // overlap-save delay of half a block per bank.
    let n = 8usize;
    let ticks = 12usize;
    let all_pass: Vec<Complex32> = (0..n).map(|_| one()).collect();

    // Input signal: a slow complex tone.
    let signal: Vec<Complex32> = (0..ticks * n / 2)
        .map(|i| {
            let phase = 2.0 * std::f64::consts::PI * 0.11 * i as f64;
            Complex32::new(phase.cos() as f32, phase.sin() as f32)
        })
        .collect();

    let out_params = SynthesisOutputParameters { ifft_size: n };
    let mut sy_input = SynthesisInputProcessor::new(
        out_params,
        SynthesisInputParameters { center_bin: 0, weights: all_pass.clone() },
    );
    let mut sy = SynthesisOutputProcessor::new(out_params);
    let mut sy_buffer = sy_input.make_input_buffer();

    let an_params = AnalysisInputParameters { fft_size: n };
    let mut an = AnalysisInputProcessor::new(an_params);
    let mut an_output = AnalysisOutputProcessor::new(
        an_params,
        AnalysisOutputParameters { center_bin: 0, weights: all_pass },
    );
    let mut an_buffer = an.make_input_buffer();

    let mut result: Vec<Complex32> = Vec::new();
    for tick in 0..ticks {
        let fresh: Vec<Complex32> =
            signal[tick * n / 2..(tick + 1) * n / 2].to_vec();
        sy_buffer.prepare_for_new_samples();
        sy_buffer.write_new_samples(&fresh);
        sy_input.process(sy_buffer.buffer());
        sy.add(sy_input.intermediate());
        let wideband: Vec<Complex32> = sy.process().to_vec();

        an_buffer.prepare_for_new_samples();
        an_buffer.write_new_samples(&wideband);
        an.process(an_buffer.buffer());
        result.extend_from_slice(an_output.process(an.intermediate()));
    }

    // Each bank scales by the transform size and delays by a quarter
    // block; compare past the start-up transient.
    let gain = (n * n) as f32;
    let delay: usize = n / 2;
    let mut err = 0.0f64;
    let mut reference = 0.0f64;
    for i in delay..result.len() {
        let expected = signal[i - delay] * gain;
        err += (result[i] - expected).norm_sqr() as f64;
        reference += expected.norm_sqr() as f64;
    }
    assert!(reference > 0.0);
    assert!((err / reference).sqrt() < 1e-3);
}
