use vstd::prelude::*;

use crate::error::AwebpToPngError;
use crate::frame::{frame_views, DecodedFrame, FrameData, PixelLayout};
use crate::position::AwebpFramePosition;

verus! {

/// `webp_animation::Decoder`, a decoder opened on the bytes of an animation.
#[verifier::external_type_specification]
#[verifier::external_body]
pub struct ExDecoder<'a>(webp_animation::Decoder<'a>);

/// `webp_animation::DecoderIterator`, which decodes one frame at each step.
#[verifier::external_type_specification]
#[verifier::external_body]
pub struct ExDecoderIterator<'a>(webp_animation::DecoderIterator<'a>);

/// `webp_animation::Error`.
#[verifier::external_type_specification]
#[verifier::external_body]
pub struct ExDecoderError(webp_animation::Error);

/// The frames that `webp_animation` decodes from `bytes`, in the order in
/// which they come, or `None` where it refuses to open a decoder on them.
/// Short of running out of memory, decoding has no input but the bytes.
pub uninterp spec fn webp_frames(bytes: Seq<u8>) -> Option<Seq<FrameData>>;

/// The frames that a decoder will hand out once it is iterated.
pub uninterp spec fn decoder_frames(decoder: webp_animation::Decoder) -> Seq<FrameData>;

/// The frames that an iterator has yet to hand out: those that `next`
/// returns, one by one, until it first returns `None`.
pub uninterp spec fn frames_left(frames: webp_animation::DecoderIterator) -> Seq<FrameData>;

/// `webp_animation::Decoder::new`. It opens a decoder on the bytes or refuses
/// them; an empty buffer is refused before anything else is tried. Trusted:
/// whether the bytes are refused depends on them alone, and a decoder that
/// comes back holds the frames of these bytes.
#[verifier::external_body]
fn decoder_new<'a>(bytes: &'a [u8]) -> (opened: Result<
    webp_animation::Decoder<'a>,
    webp_animation::Error,
>)
    ensures
        match opened {
            Ok(decoder) => webp_frames(bytes@) == Some(decoder_frames(decoder)),
            Err(_) => webp_frames(bytes@) is None,
        },
        bytes@.len() == 0 ==> opened is Err,
{
    webp_animation::Decoder::new(bytes)
}

/// `IntoIterator::into_iter` of `webp_animation::Decoder`, which wraps the
/// decoder as it is. Trusted: the iterator has all of the decoder's frames
/// yet to hand out.
#[verifier::external_body]
fn decoder_into_iter<'a>(decoder: webp_animation::Decoder<'a>) -> (frames:
    webp_animation::DecoderIterator<'a>)
    ensures
        frames_left(frames) == decoder_frames(decoder),
{
    decoder.into_iter()
}

/// `Iterator::next` of `webp_animation::DecoderIterator`, with the frame
/// copied out through its getters `timestamp`, `color_mode`, `dimensions`
/// and `data`. Trusted: it hands out the first of the frames that are left
/// and keeps the rest; the frame's bytes fill its canvas in its layout; it
/// returns `None` only where no frame is left. Nothing is claimed of the
/// iterator after it has returned `None`.
#[verifier::external_body]
fn decoder_next(frames: &mut webp_animation::DecoderIterator<'_>) -> (next: Option<DecodedFrame>)
    ensures
        match next {
            Some(frame) => {
                &&& frames_left(*old(frames)).len() > 0
                &&& frame@ == frames_left(*old(frames))[0]
                &&& frames_left(*final(frames)) == frames_left(*old(frames)).skip(1)
                &&& frame@.well_formed()
            },
            None => frames_left(*old(frames)).len() == 0,
        },
{
    let frame = frames.next()?;
    let (width, height) = frame.dimensions();
    let layout = match frame.color_mode() {
        webp_animation::ColorMode::Rgb => PixelLayout::Rgb,
        webp_animation::ColorMode::Rgba => PixelLayout::Rgba,
        webp_animation::ColorMode::Bgra => PixelLayout::Bgra,
        webp_animation::ColorMode::Bgr => PixelLayout::Bgr,
    };
    let (timestamp, data) = (frame.timestamp(), frame.data().to_vec());
    Some(DecodedFrame { timestamp, layout, width, height, data })
}

/// The frames of one animation, decoded one at a time and in order. Its view
/// is the sequence of frames that are still to come. Once the decoder has
/// said that no frame is left, it is not asked again.
pub struct FrameStream<'a> {
    frames: webp_animation::DecoderIterator<'a>,
    ended: bool,
}

impl<'a> View for FrameStream<'a> {
    type V = Seq<FrameData>;

    closed spec fn view(&self) -> Seq<FrameData> {
        if self.ended {
            Seq::empty()
        } else {
            frames_left(self.frames)
        }
    }
}

impl<'a> FrameStream<'a> {
    /// Opens a stream on the bytes of an animation. Bytes that the decoder
    /// refuses, an empty buffer among them, give `DecodeAwebpFailed`.
    pub fn open(bytes: &'a [u8]) -> (stream: Result<FrameStream<'a>, AwebpToPngError>)
        ensures
            match stream {
                Ok(s) => webp_frames(bytes@) == Some(s@),
                Err(e) => e == AwebpToPngError::DecodeAwebpFailed && webp_frames(bytes@) is None,
            },
            bytes@.len() == 0 ==> stream is Err,
    {
        match decoder_new(bytes) {
            Ok(decoder) => Ok(FrameStream { frames: decoder_into_iter(decoder), ended: false }),
            Err(_) => Err(AwebpToPngError::DecodeAwebpFailed),
        }
    }

    /// Decodes the next frame, or returns `None` at the end of the stream.
    pub fn next_frame(&mut self) -> (next: Option<DecodedFrame>)
        ensures
            match next {
                Some(frame) => {
                    &&& old(self)@.len() > 0
                    &&& frame@ == old(self)@[0]
                    &&& frame@.well_formed()
                    &&& final(self)@ == old(self)@.skip(1)
                },
                None => old(self)@.len() == 0 && final(self)@.len() == 0,
            },
    {
        if self.ended {
            return None;
        }
        let next = decoder_next(&mut self.frames);
        if next.is_none() {
            self.ended = true;
        }
        next
    }

    /// Decodes up to the frame at `index`, counted from zero, and returns
    /// it. No frame behind it is decoded.
    fn nth(&mut self, index: usize) -> (found: Option<DecodedFrame>)
        ensures
            match found {
                Some(frame) => {
                    &&& index < old(self)@.len()
                    &&& frame@ == old(self)@[index as int]
                    &&& final(self)@ == old(self)@.skip(index + 1)
                },
                None => old(self)@.len() <= index && final(self)@.len() == 0,
            },
    {
        let mut passed: usize = 0;
        loop
            invariant
                passed <= index,
                passed <= old(self)@.len(),
                self@ == old(self)@.skip(passed as int),
            decreases self@.len(),
        {
            match self.next_frame() {
                None => {
                    return None;
                },
                Some(frame) => {
                    if passed == index {
                        return Some(frame);
                    }
                    passed = passed + 1;
                },
            }
        }
    }

    /// Decodes every frame that is left and returns the last of them.
    fn last(&mut self) -> (found: Option<DecodedFrame>)
        ensures
            match found {
                Some(frame) => old(self)@.len() > 0 && frame@ == old(self)@.last(),
                None => old(self)@.len() == 0,
            },
            final(self)@.len() == 0,
    {
        let mut latest: Option<DecodedFrame> = None;
        let ghost mut passed: int = 0;
        loop
            invariant
                0 <= passed <= old(self)@.len(),
                self@ == old(self)@.skip(passed),
                match latest {
                    Some(frame) => passed > 0 && frame@ == old(self)@[passed - 1],
                    None => passed == 0,
                },
            decreases self@.len(),
        {
            match self.next_frame() {
                None => {
                    return latest;
                },
                Some(frame) => {
                    latest = Some(frame);
                    proof {
                        passed = passed + 1;
                    }
                },
            }
        }
    }

    /// Picks the frame that `position` names, and `AwebpSpecificFrameIsNone`
    /// where the stream ends before that frame. The stream is decoded only
    /// as far as that takes: up to the frame for `First` and `Specific`, to
    /// the end for `Last` and where the frame is not found.
    pub fn select_one(&mut self, position: AwebpFramePosition) -> (picked: Result<
        DecodedFrame,
        AwebpToPngError,
    >)
        ensures
            match position.pick(old(self)@) {
                Some(frame) => picked matches Ok(found) && found@ == frame,
                None => picked matches Err(e) && e == AwebpToPngError::AwebpSpecificFrameIsNone,
            },
            final(self)@ == old(self)@.skip(position.reads(old(self)@.len()) as int),
    {
        let found = match position {
            AwebpFramePosition::First => self.nth(0),
            AwebpFramePosition::Specific(n) => self.nth(if n < 1 { 0 } else { n - 1 }),
            AwebpFramePosition::Last => self.last(),
        };
        match found {
            Some(frame) => Ok(frame),
            None => Err(AwebpToPngError::AwebpSpecificFrameIsNone),
        }
    }

    /// Decodes every frame that is left, in order.
    pub fn select_all(&mut self) -> (all: Vec<DecodedFrame>)
        ensures
            frame_views(all@) == old(self)@,
            final(self)@.len() == 0,
    {
        let mut all: Vec<DecodedFrame> = Vec::new();
        loop
            invariant
                all@.len() <= old(self)@.len(),
                self@ == old(self)@.skip(all@.len() as int),
                frame_views(all@) == old(self)@.take(all@.len() as int),
            decreases self@.len(),
        {
            match self.next_frame() {
                None => {
                    return all;
                },
                Some(frame) => {
                    all.push(frame);
                },
            }
        }
    }
}

} // verus!
