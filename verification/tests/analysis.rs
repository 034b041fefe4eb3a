//! The analysis filter bank: bin extraction, weighting, output length.

use rustfft::num_complex::Complex32;
use sdrglue::analysis::{
    AnalysisInputParameters, AnalysisInputProcessor, AnalysisOutputParameters,
    AnalysisOutputProcessor,
};

fn zero() -> Complex32 {
    Complex32::new(0.0, 0.0)
}

fn one() -> Complex32 {
    Complex32::new(1.0, 0.0)
}

/// A complex tone at the given bin of an `n`-point transform.
fn tone(n: usize, bin: usize, len: usize) -> Vec<Complex32> {
    let mut v = Vec::new();
    for i in 0..len {
        let phase = 2.0 * std::f64::consts::PI * (bin * i) as f64 / n as f64;
        v.push(Complex32::new(phase.cos() as f32, phase.sin() as f32));
    }
    v
}

#[test]
fn test_tone_in_passband() {
    // A tone at bin 2 of an 8-point bank, extracted at center bin 2 with
    // a single-bin passband, lands on the sub-channel's DC: every output
    // sample has the same value, of magnitude equal to the transform
    // gain of the unnormalized forward-inverse pair.
    let params = AnalysisInputParameters { fft_size: 8 };
    let mut bank = AnalysisInputProcessor::new(params);
    bank.process(&tone(8, 2, 8));
    let mut out_proc = AnalysisOutputProcessor::new(
        params,
        AnalysisOutputParameters { center_bin: 2, weights: vec![one(), zero(), zero(), zero()] },
    );
    let out: Vec<Complex32> = out_proc.process(bank.intermediate()).to_vec();
    assert_eq!(out.len(), 2);
    for v in out.iter() {
        assert!((v.norm() - 8.0).abs() < 1e-3);
    }
    // DC after translation: the phase does not advance between samples.
    assert!((out[0] - out[1]).norm() < 1e-3);
}

#[test]
fn test_tone_outside_passband() {
    // A tone at bin 1 lies outside the single-bin passband centered on
    // bin 2: the output is zero.
    let params = AnalysisInputParameters { fft_size: 8 };
    let mut bank = AnalysisInputProcessor::new(params);
    bank.process(&tone(8, 1, 8));
    let mut out_proc = AnalysisOutputProcessor::new(
        params,
        AnalysisOutputParameters { center_bin: 2, weights: vec![one(), zero(), zero(), zero()] },
    );
    let out: Vec<Complex32> = out_proc.process(bank.intermediate()).to_vec();
    assert_eq!(out.len(), 2);
    for v in out.iter() {
        assert!(v.norm() < 1e-3);
    }
}

#[test]
fn test_center_bin_modulo() {
    // Center bins that agree modulo the transform size extract
    // element-equal outputs.
    let params = AnalysisInputParameters { fft_size: 8 };
    let mut bank = AnalysisInputProcessor::new(params);
    bank.process(&tone(8, 3, 8));
    let weights = vec![one(), one(), zero(), one()];
    let mut a = AnalysisOutputProcessor::new(
        params,
        AnalysisOutputParameters { center_bin: 2, weights: weights.clone() },
    );
    let mut b = AnalysisOutputProcessor::new(
        params,
        AnalysisOutputParameters { center_bin: 10, weights: weights.clone() },
    );
    let mut c = AnalysisOutputProcessor::new(
        params,
        AnalysisOutputParameters { center_bin: -6, weights },
    );
    let out_a: Vec<Complex32> = a.process(bank.intermediate()).to_vec();
    let out_b: Vec<Complex32> = b.process(bank.intermediate()).to_vec();
    let out_c: Vec<Complex32> = c.process(bank.intermediate()).to_vec();
    assert_eq!(out_a.len(), out_b.len());
    assert_eq!(out_a.len(), out_c.len());
    for i in 0..out_a.len() {
        assert!(out_a[i] == out_b[i]);
        assert!(out_a[i] == out_c[i]);
    }
}

#[test]
fn test_output_length() {
    // The analysis output is always half the output transform size; a
    // window of two bins is a single-bin extractor yielding one sample
    // per tick.
    let params = AnalysisInputParameters { fft_size: 16 };
    let mut bank = AnalysisInputProcessor::new(params);
    bank.process(&tone(16, 5, 16));
    for ifft_size in [2usize, 4, 8, 16] {
        let weights: Vec<Complex32> = (0..ifft_size).map(|_| one()).collect();
        let mut out_proc = AnalysisOutputProcessor::new(
            params,
            AnalysisOutputParameters { center_bin: 5, weights },
        );
        let out = out_proc.process(bank.intermediate());
        assert_eq!(out.len(), ifft_size / 2);
    }
}
