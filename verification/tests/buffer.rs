//! Overlap-save input buffering and block accounting.

use rustfft::num_complex::Complex32;
use sdrglue::analysis::{AnalysisInputParameters, AnalysisInputProcessor};
use sdrglue::buffer::{InputBlockSize, InputBuffer};
use sdrglue::synthesis::{
    SynthesisInputParameters, SynthesisInputProcessor, SynthesisOutputParameters,
};

fn sample(k: usize) -> Complex32 {
    Complex32::new(k as f32 + 1.0, -(k as f32) - 2.0)
}

#[test]
fn test_new_buffer_zeroed() {
    let buf = InputBuffer::new(InputBlockSize { new: 4, overlap: 4 });
    assert_eq!(buf.buffer().len(), 8);
    for v in buf.buffer().iter() {
        assert!(*v == Complex32::new(0.0, 0.0));
    }
}

#[test]
fn test_overlap_save() {
    // After any tick, the first `overlap` samples equal the last
    // `overlap` samples of the previous tick's full buffer.
    let mut buf = InputBuffer::new(InputBlockSize { new: 4, overlap: 4 });
    let first: Vec<Complex32> = (0..4).map(sample).collect();
    buf.prepare_for_new_samples();
    buf.write_new_samples(&first);
    let previous_tail: Vec<Complex32> = buf.buffer()[4..8].to_vec();

    let second: Vec<Complex32> = (4..8).map(sample).collect();
    buf.prepare_for_new_samples();
    buf.write_new_samples(&second);
    for i in 0..4 {
        assert!(buf.buffer()[i] == previous_tail[i]);
        assert!(buf.buffer()[4 + i] == second[i]);
    }
}

#[test]
fn test_block_accounting() {
    // For every bank, new == overlap and they sum to the transform size.
    let analysis = AnalysisInputProcessor::new(AnalysisInputParameters { fft_size: 8 });
    let size = analysis.input_block_size();
    assert_eq!(size.new, 4);
    assert_eq!(size.overlap, 4);
    assert_eq!(size.new + size.overlap, 8);

    let synth_out = SynthesisOutputParameters { ifft_size: 16 };
    let ones: Vec<Complex32> = (0..8).map(|_| Complex32::new(1.0, 0.0)).collect();
    let synth_in = SynthesisInputProcessor::new(
        synth_out,
        SynthesisInputParameters { center_bin: 0, weights: ones },
    );
    let size = synth_in.input_block_size();
    assert_eq!(size.new, 4);
    assert_eq!(size.overlap, 4);
    assert_eq!(size.new + size.overlap, 8);
}
