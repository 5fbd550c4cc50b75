use vstd::prelude::*;

use crate::convert::{converts_before, frame_png, frames_png, multi_png, single_png};
use crate::decoder::webp_frames;
use crate::error::AwebpToPngError;
use crate::frame::FrameData;
use crate::position::AwebpFramePosition;

verus! {

/// In an animation of exactly one frame, `First`, `Specific(1)` and `Last`
/// all name that frame, so the three conversions give the same answer.
pub proof fn lemma_one_frame_any_position(bytes: Seq<u8>)
    requires
        webp_frames(bytes) matches Some(frames) && frames.len() == 1,
    ensures
        single_png(bytes, AwebpFramePosition::Specific(1)) == single_png(
            bytes,
            AwebpFramePosition::First,
        ),
        single_png(bytes, AwebpFramePosition::Last) == single_png(bytes, AwebpFramePosition::First),
{
}

/// Where every frame of an animation converts, the conversion of all frames
/// gives one PNG file for each frame, in order: the file at each place is
/// that of the frame at the same place.
pub proof fn lemma_one_file_per_frame(bytes: Seq<u8>)
    requires
        webp_frames(bytes) matches Some(frames) && converts_before(frames, frames.len() as int),
    ensures
        multi_png(bytes) matches Ok(files) && files.len() == webp_frames(bytes)->Some_0.len(),
        forall|i: int|
            0 <= i < webp_frames(bytes)->Some_0.len() ==> Ok::<Seq<u8>, AwebpToPngError>(
                multi_png(bytes)->Ok_0[i],
            ) == #[trigger] frame_png(webp_frames(bytes)->Some_0[i]),
{
}

/// The conversion of all frames succeeds exactly where every frame
/// converts, and never gives more or fewer files than there are frames.
pub proof fn lemma_all_or_nothing(frames: Seq<FrameData>)
    ensures
        frames_png(frames) is Ok <==> converts_before(frames, frames.len() as int),
        frames_png(frames) matches Ok(files) ==> files.len() == frames.len(),
{
}

/// In an animation of `n` frames, `Specific(n)` and `Last` name the same
/// frame, so the two conversions give the same answer.
pub proof fn lemma_specific_count_is_last(bytes: Seq<u8>, n: usize)
    requires
        webp_frames(bytes) matches Some(frames) && frames.len() == n,
    ensures
        single_png(bytes, AwebpFramePosition::Specific(n)) == single_png(
            bytes,
            AwebpFramePosition::Last,
        ),
{
}

/// `Specific(0)` and `Specific(1)` both name the first frame: on every
/// input the two conversions give the same answer.
pub proof fn lemma_specific_zero_is_one(bytes: Seq<u8>)
    ensures
        single_png(bytes, AwebpFramePosition::Specific(0)) == single_png(
            bytes,
            AwebpFramePosition::Specific(1),
        ),
        forall|len: nat|
            #![auto]
            AwebpFramePosition::Specific(0).index_in(len) == AwebpFramePosition::Specific(
                1,
            ).index_in(len),
{
}

/// A position behind the last frame of an animation that decodes gives
/// `AwebpSpecificFrameIsNone`, and no other error.
pub proof fn lemma_position_past_end(bytes: Seq<u8>, n: usize)
    requires
        webp_frames(bytes) matches Some(frames) && n > frames.len(),
    ensures
        single_png(bytes, AwebpFramePosition::Specific(n)) == Err::<Seq<u8>, AwebpToPngError>(
            AwebpToPngError::AwebpSpecificFrameIsNone,
        ),
{
}

/// A position is settled by decoding no more than it needs: a frame that is
/// found is the last one decoded, and only a position that names no frame
/// has every frame decoded before that is known.
pub proof fn lemma_reads_as_far_as_needed(position: AwebpFramePosition, len: nat)
    ensures
        position.reads(len) <= len,
        position.index_in(len) matches Some(index) ==> position.reads(len) == index + 1,
        position.index_in(len) is None ==> position.reads(len) == len,
{
}

/// Bytes that the decoder refuses give `DecodeAwebpFailed` and no PNG file,
/// whatever the position.
pub proof fn lemma_refused_bytes(bytes: Seq<u8>, position: AwebpFramePosition)
    requires
        webp_frames(bytes) is None,
    ensures
        single_png(bytes, position) == Err::<Seq<u8>, AwebpToPngError>(
            AwebpToPngError::DecodeAwebpFailed,
        ),
        multi_png(bytes) == Err::<Seq<Seq<u8>>, AwebpToPngError>(
            AwebpToPngError::DecodeAwebpFailed,
        ),
{
}

} // verus!
