//! The numeric half of the per-channel pipeline: the library's engine
//! decides when a block may run, the floating-point convolution backend
//! does the arithmetic. These tests drive both together, the way the
//! real-time callback does.

use fft_convolver::FFTConvolver;
use sjconv::engine::{Engine, ADDED_LATENCY_SAMPLES};

const TOLERANCE: f32 = 1e-5;

fn assert_close(actual: &[f32], expected: &[f32]) {
    assert_eq!(actual.len(), expected.len());
    for (i, (a, e)) in actual.iter().zip(expected.iter()).enumerate() {
        assert!(
            (a - e).abs() < TOLERANCE,
            "sample {i}: got {a}, expected {e}"
        );
    }
}

/// Drive one block through the pair: the engine must admit it, then the
/// backend convolves it.
fn run_block(engine: &Engine, backend: &mut FFTConvolver<f32>, input: &[f32]) -> Vec<f32> {
    let mut output = vec![0.0f32; input.len()];
    assert_eq!(engine.check_process(input.len(), output.len()), Ok(()));
    backend.process(input, &mut output).unwrap();
    output
}

fn init_pair(block_size: usize, ir: &[f32]) -> (Engine, FFTConvolver<f32>) {
    let mut engine = Engine::new();
    let mut backend = FFTConvolver::default();
    let backend_ready = backend.init(block_size, ir).is_ok();
    assert_eq!(engine.initialize(block_size, backend_ready), Ok(()));
    (engine, backend)
}

#[test]
fn identity_filter_passes_the_input_through() {
    // A single-sample impulse response of 1.0 is the identity filter:
    // with zero added latency the output equals the input.
    let (engine, mut backend) = init_pair(4, &[1.0]);
    let first = run_block(&engine, &mut backend, &[1.0, 0.0, 0.0, 0.0]);
    assert_close(&first, &[1.0, 0.0, 0.0, 0.0]);
    let second = run_block(&engine, &mut backend, &[0.0, 0.0, 0.0, 0.0]);
    assert_close(&second, &[0.0, 0.0, 0.0, 0.0]);
}

#[test]
fn two_tap_average_spreads_across_blocks() {
    // ir = [0.5, 0.5], block size 2: the tail of each block bleeds into
    // the next one, with zero added latency.
    let (engine, mut backend) = init_pair(2, &[0.5, 0.5]);
    let first = run_block(&engine, &mut backend, &[1.0, 1.0]);
    assert_close(&first, &[0.5, 1.0]);
    let second = run_block(&engine, &mut backend, &[0.0, 0.0]);
    assert_close(&second, &[0.5, 0.0]);
}

#[test]
fn unit_impulse_reproduces_the_impulse_response() {
    // Streaming a unit impulse through the engine plays the impulse
    // response back, spread over successive blocks, with zero added
    // latency.
    let ir = [0.9f32, -0.4, 0.25, 0.1, -0.05];
    let block: usize = 2;
    let (engine, mut backend) = init_pair(block, &ir);

    let mut collected = Vec::new();
    let mut input = vec![0.0f32; block];
    input[0] = 1.0;
    for _ in 0..3 {
        let out = run_block(&engine, &mut backend, &input);
        collected.extend_from_slice(&out);
        input[0] = 0.0;
    }
    let delayed = &collected[ADDED_LATENCY_SAMPLES..];
    assert_close(&delayed[..ir.len()], &ir);
    assert_close(&delayed[ir.len()..], &[0.0]);
}

#[test]
fn blockwise_processing_equals_one_shot_processing() {
    // The same finite stream, convolved in one oversized call and in
    // block-size pieces, gives the same samples: the overlap state is
    // carried correctly across block boundaries.
    let ir = [0.3f32, 0.2, -0.6, 0.05];
    let stream = [1.0f32, -0.5, 0.25, 0.8, -1.0, 0.4, 0.0, 0.6];

    let mut one_shot = FFTConvolver::<f32>::default();
    one_shot.init(stream.len(), &ir).unwrap();
    let mut whole = vec![0.0f32; stream.len()];
    one_shot.process(&stream, &mut whole).unwrap();

    let block: usize = 4;
    let (engine, mut backend) = init_pair(block, &ir);
    let mut pieces = Vec::new();
    for chunk in stream.chunks(block) {
        pieces.extend_from_slice(&run_block(&engine, &mut backend, chunk));
    }

    assert_close(&pieces, &whole);
}

#[test]
fn reinitialization_discards_the_old_stream_state() {
    // Feed a loud block at block size 4, reinitialize for block size 2,
    // then feed silence: the new-size block comes out whole and silent —
    // nothing of the old stream bleeds past the reinitialization.
    let ir = [0.5f32, 0.25, 0.125, 0.0625];
    let (mut engine, mut backend) = init_pair(4, &ir);
    let _ = run_block(&engine, &mut backend, &[1.0, 1.0, 1.0, 1.0]);

    let backend_ready = backend.init(2, &ir).is_ok();
    assert_eq!(engine.initialize(2, backend_ready), Ok(()));
    assert_eq!(engine.check_process(4, 4), Err(sjconv::errors::ProcessError::BlockLengthMismatch));

    let silent = run_block(&engine, &mut backend, &[0.0, 0.0]);
    assert_eq!(silent.len(), 2);
    assert_close(&silent, &[0.0, 0.0]);
}

#[test]
fn neighbour_channels_are_isolated_from_one_failure() {
    // Three channels with their own engines and backends; the middle
    // one is broken mid-stream. The outer channels' samples for the
    // same blocks are identical to a run where nothing is broken.
    let ir = [0.4f32, 0.3, 0.2, 0.1];
    let block: usize = 4;
    let input = [0.5f32, -0.25, 1.0, -0.75];

    let mut clean = Vec::new();
    for _ in 0..3 {
        let (engine, mut backend) = init_pair(block, &ir);
        clean.push(run_block(&engine, &mut backend, &input));
    }

    let mut pairs: Vec<(Engine, FFTConvolver<f32>)> =
        (0..3).map(|_| init_pair(block, &ir)).collect();
    // Break channel 2 alone: its engine fails to reinitialize.
    let broken_ready = pairs[1].1.init(0, &ir).is_ok();
    assert!(pairs[1].0.initialize(0, broken_ready).is_err());

    let mut outputs = Vec::new();
    for (engine, backend) in pairs.iter_mut() {
        let mut output = vec![0.0f32; block];
        if engine.check_process(block, block).is_ok() {
            backend.process(&input, &mut output).unwrap();
        }
        outputs.push(output);
    }

    assert_close(&outputs[0], &clean[0]);
    assert_close(&outputs[2], &clean[2]);
}
