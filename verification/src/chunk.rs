//! Bulk chunking: adapting an arbitrary-length sample buffer to the engine's
//! fixed frame contract.
//!
//! [`denoise_audio_chunk`] partitions its input into consecutive segments of
//! [`FRAME_SIZE`] samples (the last one possibly shorter), zero-pads the last
//! segment to a full working frame, feeds the frames in order to a private
//! engine created for the call, and concatenates — trimmed back to each
//! segment's own length — the denoised frames. The result is exactly as long
//! as the input.

use vstd::prelude::*;

use crate::engine::denoise_of;
use crate::engine::lemma_denoise_of_len;
use crate::engine::lemma_stream_extend;
use crate::engine::stream_outputs;
use crate::engine::WasmDenoiseState;
use crate::engine::FRAME_SIZE;

verus! {

/// A run of silence: `m` samples of zero amplitude.
pub open spec fn silence(m: int) -> Seq<u32> {
    Seq::new(m as nat, |j: int| 0u32)
}

/// How many working frames cover `n` samples: one per started segment of
/// `FRAME_SIZE` samples.
pub open spec fn frame_count(n: int) -> int
    decreases n,
{
    if n <= 0 {
        0
    } else if n <= FRAME_SIZE {
        1
    } else {
        1 + frame_count(n - FRAME_SIZE)
    }
}

/// The `i`-th consecutive segment of the input: `FRAME_SIZE` samples, except
/// that the last segment ends at the input's end.
pub open spec fn segment(input: Seq<u32>, i: int) -> Seq<u32> {
    input.subrange(
        i * FRAME_SIZE,
        if input.len() < (i + 1) * FRAME_SIZE {
            input.len() as int
        } else {
            (i + 1) * FRAME_SIZE
        },
    )
}

/// The `i`-th working frame: the `i`-th segment, padded with silence up to a
/// full `FRAME_SIZE` samples. A full segment is its own working frame.
pub open spec fn padded_frame(input: Seq<u32>, i: int) -> Seq<u32> {
    segment(input, i) + silence(FRAME_SIZE - segment(input, i).len())
}

/// The working frames a private engine has consumed once the first `k`
/// segments are processed, oldest first.
pub open spec fn frames_prefix(input: Seq<u32>, k: int) -> Seq<Seq<u32>>
    decreases k,
{
    if k <= 0 {
        Seq::empty()
    } else {
        frames_prefix(input, k - 1).push(padded_frame(input, k - 1))
    }
}

/// The denoised samples produced for the first `k` segments: each denoised
/// frame contributes only its first `segment-length` samples — the padded tail
/// is discarded — and the contributions stand in segment order.
pub open spec fn chunk_prefix(input: Seq<u32>, k: int) -> Seq<u32>
    decreases k,
{
    if k <= 0 {
        Seq::empty()
    } else {
        chunk_prefix(input, k - 1) + denoise_of(
            frames_prefix(input, k - 1),
            padded_frame(input, k - 1),
        ).take(segment(input, k - 1).len() as int)
    }
}

/// What [`denoise_audio_chunk`] returns: the denoised samples of every
/// segment, in order.
pub open spec fn denoise_chunk_spec(input: Seq<u32>) -> Seq<u32> {
    chunk_prefix(input, frame_count(input.len() as int))
}

proof fn lemma_frame_count_split(k: int, r: int)
    requires
        0 <= k,
        0 <= r < FRAME_SIZE,
    ensures
        frame_count(k * FRAME_SIZE + r) == if r == 0 {
            k
        } else {
            k + 1
        },
    decreases k,
{
    if k > 0 {
        lemma_frame_count_split(k - 1, r);
    }
}

/// On an input whose length is an exact multiple of `FRAME_SIZE`, every
/// working frame is a plain consecutive segment of the input — no padding
/// takes part — and the chunk result is exactly the output stream of one fresh
/// engine fed those segments in order, nothing trimmed.
pub proof fn lemma_chunk_exact_multiple(input: Seq<u32>, k: int)
    requires
        0 <= k,
        input.len() == k * FRAME_SIZE,
    ensures
        frame_count(input.len() as int) == k,
        forall|i: int|
            0 <= i < k ==> padded_frame(input, i) == input.subrange(
                i * FRAME_SIZE,
                (i + 1) * FRAME_SIZE,
            ),
        denoise_chunk_spec(input) == stream_outputs(frames_prefix(input, k)),
{
    lemma_frame_count_split(k, 0);
    assert forall|i: int| 0 <= i < k implies padded_frame(input, i) == input.subrange(
        i * FRAME_SIZE,
        (i + 1) * FRAME_SIZE,
    ) by {
        lemma_segment_full(input, k, i);
    }
    lemma_chunk_prefix_exact(input, k, k);
}

proof fn lemma_segment_full(input: Seq<u32>, k: int, i: int)
    requires
        0 <= i < k,
        input.len() == k * FRAME_SIZE,
    ensures
        segment(input, i) == input.subrange(i * FRAME_SIZE, (i + 1) * FRAME_SIZE),
        segment(input, i).len() == FRAME_SIZE,
        padded_frame(input, i) == segment(input, i),
{
    assert((i + 1) * FRAME_SIZE <= k * FRAME_SIZE) by (nonlinear_arith)
        requires
            i + 1 <= k,
    ;
    assert(i * FRAME_SIZE >= 0) by (nonlinear_arith)
        requires
            i >= 0,
    ;
    assert(padded_frame(input, i) =~= segment(input, i));
}

proof fn lemma_chunk_prefix_exact(input: Seq<u32>, k: int, j: int)
    requires
        0 <= j <= k,
        input.len() == k * FRAME_SIZE,
    ensures
        chunk_prefix(input, j) == stream_outputs(frames_prefix(input, j)),
    decreases j,
{
    if j > 0 {
        lemma_chunk_prefix_exact(input, k, j - 1);
        lemma_segment_full(input, k, j - 1);
        lemma_stream_extend(frames_prefix(input, j - 1), padded_frame(input, j - 1));
        lemma_denoise_of_len(frames_prefix(input, j - 1), padded_frame(input, j - 1));
        assert(denoise_of(frames_prefix(input, j - 1), padded_frame(input, j - 1)).take(
            segment(input, j - 1).len() as int,
        ) =~= denoise_of(frames_prefix(input, j - 1), padded_frame(input, j - 1)));
    }
}

/// On an input whose length is not a multiple of `FRAME_SIZE` — it covers `k`
/// full segments and `r` samples more — the final working frame is the input's
/// last `r` samples padded with `FRAME_SIZE - r` samples of silence, and the
/// chunk result is the result for the full segments followed by only the first
/// `r` denoised samples of that final frame: the padded tail is discarded.
pub proof fn lemma_chunk_padded_tail(input: Seq<u32>, k: int, r: int)
    requires
        0 <= k,
        0 < r < FRAME_SIZE,
        input.len() == k * FRAME_SIZE + r,
    ensures
        frame_count(input.len() as int) == k + 1,
        segment(input, k) == input.subrange(k * FRAME_SIZE, input.len() as int),
        segment(input, k).len() == r,
        padded_frame(input, k) == input.subrange(k * FRAME_SIZE, input.len() as int) + silence(
            FRAME_SIZE - r,
        ),
        denoise_chunk_spec(input) == chunk_prefix(input, k) + denoise_of(
            frames_prefix(input, k),
            padded_frame(input, k),
        ).take(r),
{
    lemma_frame_count_split(k, r);
    assert(k * FRAME_SIZE >= 0) by (nonlinear_arith)
        requires
            k >= 0,
    ;
    assert(segment(input, k) =~= input.subrange(k * FRAME_SIZE, input.len() as int));
}

/// Denoise an arbitrary-length sample buffer with a private engine owned only
/// for the duration of the call. The result holds exactly one denoised sample
/// per input sample; an empty input yields an empty result.
pub fn denoise_audio_chunk(input: &Vec<u32>) -> (output: Vec<u32>)
    ensures
        output@ == denoise_chunk_spec(input@),
        output@.len() == input@.len(),
{
    let mut engine = WasmDenoiseState::new();
    let mut output: Vec<u32> = Vec::with_capacity(input.len());
    let n = input.len();
    let mut start: usize = 0;
    let ghost mut k: int = 0;
    while start < n
        invariant
            n == input@.len(),
            0 <= k,
            start <= n,
            start < n ==> start == k * FRAME_SIZE,
            k + frame_count(n - start) == frame_count(n as int),
            engine.history() == frames_prefix(input@, k),
            output@ == chunk_prefix(input@, k),
            output@.len() == start,
        decreases n - start,
    {
        let remaining = n - start;
        let seg_len = if remaining < FRAME_SIZE {
            remaining
        } else {
            FRAME_SIZE
        };
        proof {
            assert(segment(input@, k) =~= input@.subrange(start as int, start + seg_len));
        }

        // Build the working frame: the segment's samples, then silence up to
        // a full frame. The frame is built afresh for every segment, so no
        // padding can leak across segments.
        let mut frame: Vec<u32> = Vec::with_capacity(FRAME_SIZE);
        let mut j: usize = 0;
        while j < seg_len
            invariant
                j <= seg_len,
                start + seg_len <= n,
                n == input@.len(),
                frame@ == input@.subrange(start as int, start + j),
            decreases seg_len - j,
        {
            let sample = input[start + j];
            frame.push(sample);
            proof {
                assert(frame@ =~= input@.subrange(start as int, start + j + 1));
            }
            j = j + 1;
        }
        while frame.len() < FRAME_SIZE
            invariant
                seg_len <= FRAME_SIZE,
                start + seg_len <= n,
                n == input@.len(),
                seg_len <= frame@.len() <= FRAME_SIZE,
                frame@ == input@.subrange(start as int, start + seg_len) + silence(
                    frame@.len() - seg_len,
                ),
            decreases FRAME_SIZE - frame@.len(),
        {
            frame.push(0u32);
            proof {
                assert(frame@ =~= input@.subrange(start as int, start + seg_len) + silence(
                    frame@.len() - seg_len,
                ));
            }
        }
        proof {
            assert(frame@ =~= padded_frame(input@, k));
        }

        let processed = match engine.process_frame(&frame) {
            Ok(denoised) => denoised,
            Err(_) => {
                // The working frame always holds exactly FRAME_SIZE samples,
                // so the engine never rejects it.
                proof {
                    assert(false);
                }
                Vec::new()
            },
        };

        // Keep only the segment's own samples of the denoised frame: the
        // padded tail never reaches the result.
        let ghost output_before = output@;
        let mut j: usize = 0;
        while j < seg_len
            invariant
                j <= seg_len,
                seg_len <= processed@.len(),
                output@ == output_before + processed@.subrange(0, j as int),
            decreases seg_len - j,
        {
            let sample = processed[j];
            output.push(sample);
            proof {
                assert(output@ =~= output_before + processed@.subrange(0, j + 1 as int));
            }
            j = j + 1;
        }

        proof {
            assert(processed@.subrange(0, seg_len as int) =~= processed@.take(
                segment(input@, k).len() as int,
            ));
            assert(output@ =~= chunk_prefix(input@, k + 1));
            k = k + 1;
        }
        start = if remaining < FRAME_SIZE {
            n
        } else {
            start + FRAME_SIZE
        };
    }
    output
}

} // verus!
