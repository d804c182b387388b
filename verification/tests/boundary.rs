use denoise_stream::create_denoise_state;
use denoise_stream::denoise_audio_chunk;
use denoise_stream::destroy_denoise_state;
use denoise_stream::process_frame;
use denoise_stream::DenoiseError;
use denoise_stream::HandleTable;
use denoise_stream::WasmDenoiseState;
use denoise_stream::FRAME_SIZE;

/// A full frame whose samples carry the bit patterns of ascending amplitudes
/// seeded by `seed`.
fn full_frame(seed: u32) -> Vec<u32> {
    (0..FRAME_SIZE as u32)
        .map(|i| (seed.wrapping_mul(31).wrapping_add(i) as f32 * 0.125).to_bits())
        .collect()
}

fn samples(n: usize) -> Vec<u32> {
    (0..n as u32).map(|i| (i as f32 * 0.5 - 3.0).to_bits()).collect()
}

#[test]
fn frame_size_constant() {
    assert_eq!(WasmDenoiseState::get_frame_size(), 480);
    assert_eq!(WasmDenoiseState::get_frame_size(), WasmDenoiseState::get_frame_size());
    assert_eq!(WasmDenoiseState::get_frame_size(), FRAME_SIZE);
}

#[test]
fn managed_accepts_full_frame() {
    let mut engine = WasmDenoiseState::new();
    let out = engine.process_frame(&full_frame(1)).unwrap();
    assert_eq!(out.len(), FRAME_SIZE);
}

#[test]
fn managed_rejects_wrong_frame_size() {
    let mut engine = WasmDenoiseState::new();
    assert_eq!(
        engine.process_frame(&vec![0u32; FRAME_SIZE - 1]),
        Err(DenoiseError::InvalidFrameSize)
    );
    assert_eq!(
        engine.process_frame(&vec![0u32; FRAME_SIZE + 1]),
        Err(DenoiseError::InvalidFrameSize)
    );
    assert_eq!(engine.process_frame(&Vec::new()), Err(DenoiseError::InvalidFrameSize));
}

#[test]
fn rejected_call_leaves_engine_state_unchanged() {
    let frame = full_frame(2);
    let mut touched = WasmDenoiseState::new();
    let mut untouched = WasmDenoiseState::new();

    let t1 = touched.process_frame(&frame).unwrap();
    let u1 = untouched.process_frame(&frame).unwrap();
    assert_eq!(t1, u1);

    // A rejected call in between must not advance the engine's state.
    assert!(touched.process_frame(&vec![0u32; 3]).is_err());

    let t2 = touched.process_frame(&frame).unwrap();
    let u2 = untouched.process_frame(&frame).unwrap();
    assert_eq!(t2, u2);
}

#[test]
fn chunk_empty_input_yields_empty_output() {
    let out = denoise_audio_chunk(&Vec::new());
    assert_eq!(out, Vec::<u32>::new());
}

#[test]
fn chunk_output_length_equals_input_length() {
    for n in [1, 479, 480, 481, 500, 960, 1000] {
        let out = denoise_audio_chunk(&samples(n));
        assert_eq!(out.len(), n);
    }
}

#[test]
fn chunk_exact_multiple_is_frame_by_frame_stream() {
    let input = samples(2 * FRAME_SIZE);
    let out = denoise_audio_chunk(&input);

    // One fresh engine fed the two consecutive segments in order.
    let mut engine = WasmDenoiseState::new();
    let mut expected = Vec::new();
    expected.extend_from_slice(&engine.process_frame(&input[..FRAME_SIZE].to_vec()).unwrap());
    expected.extend_from_slice(&engine.process_frame(&input[FRAME_SIZE..].to_vec()).unwrap());

    assert_eq!(out, expected);
}

#[test]
fn chunk_pads_final_short_segment_and_trims_its_output() {
    let input = samples(FRAME_SIZE + 20);
    let out = denoise_audio_chunk(&input);

    let mut engine = WasmDenoiseState::new();
    let mut expected = Vec::new();
    expected.extend_from_slice(&engine.process_frame(&input[..FRAME_SIZE].to_vec()).unwrap());

    // The tail of 20 samples is processed as a frame padded with silence, and
    // only its first 20 denoised samples appear in the result.
    let mut last = input[FRAME_SIZE..].to_vec();
    last.resize(FRAME_SIZE, 0u32);
    let last_out = engine.process_frame(&last).unwrap();
    expected.extend_from_slice(&last_out[..20]);

    assert_eq!(out, expected);
}

#[test]
fn raw_surface_processes_like_the_managed_engine() {
    let frame = full_frame(3);
    let mut table = HandleTable::new();
    let handle = table_create(&mut table);
    let mut output = vec![0u32; FRAME_SIZE];
    assert_eq!(process_frame(&mut table, handle, &frame, &mut output), 0);

    let mut engine = WasmDenoiseState::new();
    assert_eq!(output, engine.process_frame(&frame).unwrap());
}

fn table_create(table: &mut HandleTable) -> u64 {
    assert!(table.handle_count() < u64::MAX);
    create_denoise_state(table)
}

#[test]
fn raw_null_handle_is_rejected() {
    let mut table = HandleTable::new();
    let frame = full_frame(4);
    let mut output = vec![0u32; FRAME_SIZE];
    assert_eq!(process_frame(&mut table, 0, &frame, &mut output), -1);
    assert_eq!(output, vec![0u32; FRAME_SIZE]);
}

#[test]
fn raw_unknown_handle_is_rejected() {
    let mut table = HandleTable::new();
    let frame = full_frame(5);
    let mut output = vec![0u32; FRAME_SIZE];
    assert_eq!(process_frame(&mut table, 42, &frame, &mut output), -1);
}

#[test]
fn raw_wrong_buffer_lengths_are_rejected() {
    let mut table = HandleTable::new();
    let handle = table_create(&mut table);
    let frame = full_frame(6);

    let mut output = vec![0u32; FRAME_SIZE];
    assert_eq!(process_frame(&mut table, handle, &vec![0u32; 7], &mut output), -2);

    let mut short_output = vec![0u32; 7];
    assert_eq!(process_frame(&mut table, handle, &frame, &mut short_output), -2);
    assert_eq!(short_output, vec![0u32; 7]);

    // An invalid handle outranks a bad length.
    assert_eq!(process_frame(&mut table, 0, &vec![0u32; 7], &mut output), -1);
}

#[test]
fn rejected_raw_call_leaves_engine_state_unchanged() {
    let frame = full_frame(7);
    let mut table = HandleTable::new();
    let handle = table_create(&mut table);
    let mut o1 = vec![0u32; FRAME_SIZE];
    let mut o2 = vec![0u32; FRAME_SIZE];
    assert_eq!(process_frame(&mut table, handle, &frame, &mut o1), 0);
    assert_eq!(process_frame(&mut table, handle, &vec![0u32; 9], &mut o2), -2);
    assert_eq!(process_frame(&mut table, handle, &frame, &mut o2), 0);

    let mut engine = WasmDenoiseState::new();
    assert_eq!(o1, engine.process_frame(&frame).unwrap());
    assert_eq!(o2, engine.process_frame(&frame).unwrap());
}

#[test]
fn destroyed_handle_is_rejected_without_crashing() {
    let mut table = HandleTable::new();
    let handle = table_create(&mut table);
    let frame = full_frame(8);
    let mut output = vec![0u32; FRAME_SIZE];
    assert_eq!(process_frame(&mut table, handle, &frame, &mut output), 0);

    destroy_denoise_state(&mut table, handle);
    assert_eq!(process_frame(&mut table, handle, &frame, &mut output), -1);

    // Destroying again, or destroying the null handle, is a no-op.
    destroy_denoise_state(&mut table, handle);
    destroy_denoise_state(&mut table, 0);
    assert_eq!(process_frame(&mut table, handle, &frame, &mut output), -1);
}

#[test]
fn handle_values_are_never_reused() {
    let mut table = HandleTable::new();
    let first = table_create(&mut table);
    destroy_denoise_state(&mut table, first);
    let second = table_create(&mut table);
    assert_ne!(second, first);
    assert_ne!(second, 0);

    let frame = full_frame(9);
    let mut output = vec![0u32; FRAME_SIZE];
    assert_eq!(process_frame(&mut table, first, &frame, &mut output), -1);
    assert_eq!(process_frame(&mut table, second, &frame, &mut output), 0);
}

#[test]
fn interleaved_handles_do_not_interfere() {
    let f1 = full_frame(10);
    let f2 = full_frame(11);

    let mut table = HandleTable::new();
    let h1 = table_create(&mut table);
    let h2 = table_create(&mut table);

    // Feed both handles the same two frames, interleaved.
    let mut a1 = vec![0u32; FRAME_SIZE];
    let mut b1 = vec![0u32; FRAME_SIZE];
    let mut a2 = vec![0u32; FRAME_SIZE];
    let mut b2 = vec![0u32; FRAME_SIZE];
    assert_eq!(process_frame(&mut table, h1, &f1, &mut a1), 0);
    assert_eq!(process_frame(&mut table, h2, &f1, &mut b1), 0);
    assert_eq!(process_frame(&mut table, h1, &f2, &mut a2), 0);
    assert_eq!(process_frame(&mut table, h2, &f2, &mut b2), 0);

    // Each handle's outputs match one fresh engine fed the frames in order,
    // and the two handles agree with each other.
    let mut engine = WasmDenoiseState::new();
    let e1 = engine.process_frame(&f1).unwrap();
    let e2 = engine.process_frame(&f2).unwrap();
    assert_eq!(a1, e1);
    assert_eq!(b1, e1);
    assert_eq!(a2, e2);
    assert_eq!(b2, e2);
}
