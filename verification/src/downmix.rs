//! Channel mapping for capture blocks: stereo blocks are downmixed to mono by
//! mixing each left/right pair, mono blocks pass through unchanged.
//!
//! The mixing operation itself (averaging two sample values) is handed in by
//! the caller, because sample values are floating point and live outside the
//! verified library; what is verified here is the channel mapping: which
//! input samples feed which output sample, that exactly one mono sample comes
//! out per frame pair, and that a mono block is returned exactly as it came.

use vstd::prelude::*;

use crate::error::PipelineError;

verus! {

/// Downmixes an interleaved stereo block to mono: output sample `i` is the
/// mix of input samples `2*i` (left) and `2*i + 1` (right), and nothing else.
/// The block must hold whole frame pairs.
pub fn downmix_stereo<S: Copy, F: Fn(S, S) -> S>(block: &Vec<S>, mix: &F) -> (r: Vec<S>)
    requires
        block@.len() % 2 == 0,
        forall|l: S, rr: S| #[trigger] call_requires(*mix, (l, rr)),
    ensures
        r@.len() == block@.len() / 2,
        forall|i: int|
            0 <= i < r@.len() ==> call_ensures(*mix, (block@[2 * i], block@[2 * i + 1]), #[trigger] r@[i]),
{
    let mut out: Vec<S> = Vec::new();
    let mut j: usize = 0;
    while j < block.len() / 2
        invariant
            block@.len() % 2 == 0,
            forall|l: S, rr: S| #[trigger] call_requires(*mix, (l, rr)),
            0 <= j <= block@.len() / 2,
            out@.len() == j,
            forall|i: int|
                0 <= i < j ==> call_ensures(*mix, (block@[2 * i], block@[2 * i + 1]), #[trigger] out@[i]),
        decreases block@.len() / 2 - j,
    {
        let left = block[2 * j];
        let right = block[2 * j + 1];
        out.push(mix(left, right));
        j = j + 1;
    }
    out
}

/// Maps one capture block to mono samples.
///
/// With one input channel the block passes through unchanged (identity on the
/// channel mapping); with two channels each left/right pair is mixed into one
/// mono sample by `mix`; any other channel count is rejected as a
/// configuration error — it is also rejected at capture initialization, so a
/// running pipeline never sees it. A stereo block must hold whole frame
/// pairs: the capture source delivers interleaved pairs, so a half frame
/// cannot arrive.
pub fn to_mono<S: Copy, F: Fn(S, S) -> S>(
    block: Vec<S>,
    input_channels: usize,
    mix: &F,
) -> (r: Result<Vec<S>, PipelineError>)
    requires
        input_channels == 2 ==> block@.len() % 2 == 0,
        forall|l: S, rr: S| #[trigger] call_requires(*mix, (l, rr)),
    ensures
        input_channels == 1 ==> match r {
            Ok(mono) => mono@ == block@,
            Err(_) => false,
        },
        input_channels == 2 ==> match r {
            Ok(mono) => mono@.len() == block@.len() / 2 && forall|i: int|
                0 <= i < mono@.len() ==> call_ensures(
                    *mix,
                    (block@[2 * i], block@[2 * i + 1]),
                    #[trigger] mono@[i],
                ),
            Err(_) => false,
        },
        input_channels != 1 && input_channels != 2 ==> match r {
            Ok(_) => false,
            Err(e) => e is ConfigurationError,
        },
{
    if input_channels == 1 {
        Ok(block)
    } else if input_channels == 2 {
        Ok(downmix_stereo(&block, mix))
    } else {
        Err(PipelineError::ConfigurationError("Unsupported number of input channels".to_owned()))
    }
}

} // verus!
