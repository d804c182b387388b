//! The denoising engine and its per-frame contract.
//!
//! The engine consumes frames of exactly [`FRAME_SIZE`] samples and produces a
//! denoised frame of the same length, advancing its internal adaptive state on
//! every accepted frame. The noise-suppression mathematics itself is not the
//! subject of this crate: the engine here is a structural stand-in whose
//! per-frame transform is the closed spec function [`denoise_of`], and every
//! contract and proof of the surrounding layers treats that transform as an
//! abstract deterministic function of the engine's history and the input
//! frame.

use vstd::prelude::*;

verus! {

/// Number of samples the engine consumes and produces per call. Frames of any
/// other length are rejected before the engine's state is touched.
pub const FRAME_SIZE: usize = 480;

/// The failures a boundary call can be rejected with. A rejected call never
/// changes any engine's state.
#[derive(Clone, Copy, Debug, PartialEq, Eq, Structural)]
pub enum DenoiseError {
    /// An input or output buffer does not hold exactly `FRAME_SIZE` samples.
    InvalidFrameSize,
    /// A handle that is zero, never issued, or already destroyed was used.
    InvalidHandle,
}

/// The engine's per-frame transform: from the frames the engine has already
/// consumed (its adaptive state, oldest first) and the current input frame to
/// the denoised output frame.
///
/// Kept closed on purpose: the streaming, chunking and handle layers are
/// specified and verified against an abstract deterministic transform, so none
/// of their guarantees depend on what the engine computes. The stand-in engine
/// of this crate returns the frame unchanged.
pub closed spec fn denoise_of(history: Seq<Seq<u32>>, input: Seq<u32>) -> Seq<u32> {
    input
}

/// The transform produces exactly one output sample per input sample.
pub proof fn lemma_denoise_of_len(history: Seq<Seq<u32>>, input: Seq<u32>)
    ensures
        denoise_of(history, input).len() == input.len(),
{
}

/// The denoised frames a single fresh engine produces when fed `frames` in
/// order, concatenated: the output for frame `i` is the transform of the first
/// `i` frames and frame `i` — exactly what `process_frame` returns at each
/// step.
pub open spec fn stream_outputs(frames: Seq<Seq<u32>>) -> Seq<u32>
    decreases frames.len(),
{
    if frames.len() == 0 {
        Seq::empty()
    } else {
        stream_outputs(frames.drop_last()) + denoise_of(frames.drop_last(), frames.last())
    }
}

/// An engine's output stream is a function of the frames fed to that engine
/// alone, in the order they were fed: after consuming `frames`, the next
/// accepted frame `input` extends the stream by `denoise_of(frames, input)`,
/// whatever happened to any other engine in between. In particular, two
/// engines fed identical frames in the same relative order produce identical
/// output streams, however the two call sequences are interleaved.
pub proof fn lemma_stream_extend(frames: Seq<Seq<u32>>, input: Seq<u32>)
    ensures
        stream_outputs(frames.push(input)) == stream_outputs(frames) + denoise_of(frames, input),
{
    assert(frames.push(input).drop_last() =~= frames);
    assert(frames.push(input).last() == input);
}

/// One denoising engine. It is created with fresh state (no prior adaptation),
/// owned by exactly one holder, and mutated by every accepted frame; its state
/// is the sequence of frames it has consumed so far.
pub struct WasmDenoiseState {
    frames_seen: Ghost<Seq<Seq<u32>>>,
}

impl WasmDenoiseState {
    /// The frames this engine has consumed, oldest first: the engine's
    /// abstract internal state.
    pub closed spec fn history(&self) -> Seq<Seq<u32>> {
        self.frames_seen@
    }

    /// A new engine with freshly initialized state: no frame has been
    /// consumed yet. Never fails.
    pub fn new() -> (engine: Self)
        ensures
            engine.history() == Seq::<Seq<u32>>::empty(),
    {
        WasmDenoiseState { frames_seen: Ghost(Seq::empty()) }
    }

    /// The fixed frame length the engine requires, the same constant on every
    /// call.
    pub fn get_frame_size() -> (n: usize)
        ensures
            n == FRAME_SIZE,
    {
        FRAME_SIZE
    }

    /// Denoise one frame. A frame of exactly `FRAME_SIZE` samples is accepted:
    /// the result is the transform of the engine's current state and the
    /// frame, and the state advances by that frame. Any other length is
    /// rejected with `InvalidFrameSize`, and the engine's state is left
    /// exactly as it was.
    pub fn process_frame(&mut self, input: &Vec<u32>) -> (result: Result<Vec<u32>, DenoiseError>)
        ensures
            match result {
                Ok(output) => {
                    &&& input@.len() == FRAME_SIZE
                    &&& output@ == denoise_of(old(self).history(), input@)
                    &&& output@.len() == FRAME_SIZE
                    &&& final(self).history() == old(self).history().push(input@)
                },
                Err(e) => {
                    &&& input@.len() != FRAME_SIZE
                    &&& e == DenoiseError::InvalidFrameSize
                    &&& final(self).history() == old(self).history()
                },
            },
    {
        if input.len() != FRAME_SIZE {
            return Err(DenoiseError::InvalidFrameSize);
        }
        let mut output: Vec<u32> = Vec::with_capacity(FRAME_SIZE);
        let mut i: usize = 0;
        while i < input.len()
            invariant
                i <= input@.len(),
                output@ == input@.subrange(0, i as int),
            decreases input@.len() - i,
        {
            let sample = input[i];
            output.push(sample);
            proof {
                assert(output@ =~= input@.subrange(0, i + 1 as int));
            }
            i = i + 1;
        }
        proof {
            assert(output@ =~= input@);
        }
        self.frames_seen = Ghost(self.frames_seen@.push(input@));
        Ok(output)
    }
}

} // verus!
