use vstd::prelude::*;

use crate::decoder::{webp_frames, FrameStream};
use crate::error::AwebpToPngError;
use crate::frame::{frame_views, DecodedFrame, FrameData};
use crate::pixels::png_of;
use crate::position::AwebpFramePosition;

verus! {

/// What a conversion to one PNG gave, with the file as a sequence of bytes.
pub open spec fn png_view(png: Result<Vec<u8>, AwebpToPngError>) -> Result<
    Seq<u8>,
    AwebpToPngError,
> {
    match png {
        Ok(bytes) => Ok(bytes@),
        Err(e) => Err(e),
    }
}

/// What a conversion to many PNGs gave, with each file as a sequence of
/// bytes.
pub open spec fn pngs_view(pngs: Result<Vec<Vec<u8>>, AwebpToPngError>) -> Result<
    Seq<Seq<u8>>,
    AwebpToPngError,
> {
    match pngs {
        Ok(files) => Ok(files@.map_values(|bytes: Vec<u8>| bytes@)),
        Err(e) => Err(e),
    }
}

/// The PNG file of one frame: a frame that is not RGBA ends in
/// `ToImageFailed`, pixels that the encoder refuses end in
/// `EncodePngFailed`.
pub open spec fn frame_png(frame: FrameData) -> Result<Seq<u8>, AwebpToPngError> {
    match frame.rgba() {
        None => Err(AwebpToPngError::ToImageFailed),
        Some(pixels) => match png_of(pixels.data, pixels.width, pixels.height) {
            Some(file) => Ok(file),
            None => Err(AwebpToPngError::EncodePngFailed),
        },
    }
}

/// Whether each of the first `end` frames has a PNG file.
pub open spec fn converts_before(frames: Seq<FrameData>, end: int) -> bool {
    forall|i: int| 0 <= i < end ==> (#[trigger] frame_png(frames[i])) is Ok
}

/// Whether the frame at `index` is the first that has no PNG file.
pub open spec fn fails_first_at(frames: Seq<FrameData>, index: int) -> bool {
    &&& 0 <= index < frames.len()
    &&& frame_png(frames[index]) is Err
    &&& converts_before(frames, index)
}

/// The PNG files of some frames, one for each and in the same order, or the
/// error of the first frame that has none.
pub open spec fn frames_png(frames: Seq<FrameData>) -> Result<Seq<Seq<u8>>, AwebpToPngError> {
    if converts_before(frames, frames.len() as int) {
        Ok(Seq::new(frames.len(), |i: int| frame_png(frames[i])->Ok_0))
    } else {
        Err(frame_png(frames[choose|index: int| fails_first_at(frames, index)])->Err_0)
    }
}

/// What `awebp_to_single_png` gives for the bytes of an animation and a
/// position.
pub open spec fn single_png(bytes: Seq<u8>, position: AwebpFramePosition) -> Result<
    Seq<u8>,
    AwebpToPngError,
> {
    match webp_frames(bytes) {
        None => Err(AwebpToPngError::DecodeAwebpFailed),
        Some(frames) => match position.pick(frames) {
            None => Err(AwebpToPngError::AwebpSpecificFrameIsNone),
            Some(frame) => frame_png(frame),
        },
    }
}

/// What `awebp_to_multi_png` gives for the bytes of an animation.
pub open spec fn multi_png(bytes: Seq<u8>) -> Result<Seq<Seq<u8>>, AwebpToPngError> {
    match webp_frames(bytes) {
        None => Err(AwebpToPngError::DecodeAwebpFailed),
        Some(frames) => frames_png(frames),
    }
}

/// Turns one frame into a PNG file: the frame becomes an RGBA pixel buffer,
/// and the buffer is written as PNG. A frame without width or without height
/// never has a file.
pub fn encode(frame: DecodedFrame) -> (png: Result<Vec<u8>, AwebpToPngError>)
    ensures
        png_view(png) == frame_png(frame@),
        frame@.width == 0 || frame@.height == 0 ==> png is Err,
{
    match frame.into_image() {
        Ok(image) => image.to_png(),
        Err(e) => Err(e),
    }
}

/// Turns each frame into a PNG file, in order, and stops at the first frame
/// that fails: its error is the answer and no later frame is touched.
pub fn encode_all(frames: Vec<DecodedFrame>) -> (pngs: Result<Vec<Vec<u8>>, AwebpToPngError>)
    ensures
        pngs_view(pngs) == frames_png(frame_views(frames@)),
        pngs matches Ok(files) ==> files@.len() == frames@.len(),
{
    let ghost views = frame_views(frames@);
    let mut files: Vec<Vec<u8>> = Vec::new();
    for frame in iter: frames.into_iter()
        invariant
            iter.seq() == frames@,
            views == frame_views(frames@),
            files@.len() == iter.index(),
            converts_before(views, iter.index() as int),
            forall|i: int|
                0 <= i < files@.len() ==> Ok::<Seq<u8>, AwebpToPngError>((#[trigger] files@[i])@)
                    == frame_png(views[i]),
    {
        match encode(frame) {
            Ok(file) => {
                files.push(file);
            },
            Err(e) => {
                proof {
                    let failed = iter.index() as int;
                    assert(fails_first_at(views, failed));
                    lemma_first_failure(views, failed);
                }
                return Err(e);
            },
        }
    }
    proof {
        assert(pngs_view(Ok(files))->Ok_0 =~= frames_png(views)->Ok_0);
    }
    Ok(files)
}

/// At most one frame is the first to fail, so `frames_png` gives its error.
pub proof fn lemma_first_failure(frames: Seq<FrameData>, index: int)
    requires
        fails_first_at(frames, index),
    ensures
        frames_png(frames) == Err::<Seq<Seq<u8>>, AwebpToPngError>(
            frame_png(frames[index])->Err_0,
        ),
{
    let chosen = choose|i: int| fails_first_at(frames, i);
    assert(frame_png(frames[index]) is Err);
    assert(!converts_before(frames, frames.len() as int));
    if chosen < index {
        assert(frame_png(frames[chosen]) is Ok);
    } else if index < chosen {
        assert(frame_png(frames[index]) is Ok);
    }
}

/// Converts one frame of an animation to a PNG file: `First` where no
/// position is given.
pub fn awebp_to_single_png(awebp_bytes: &[u8], frame_position: Option<AwebpFramePosition>) -> (png:
    Result<Vec<u8>, AwebpToPngError>)
    ensures
        png_view(png) == single_png(awebp_bytes@, AwebpFramePosition::or_first(frame_position)),
        awebp_bytes@.len() == 0 ==> png_view(png) == Err::<Seq<u8>, AwebpToPngError>(
            AwebpToPngError::DecodeAwebpFailed,
        ),
{
    let position = match frame_position {
        Some(position) => position,
        None => AwebpFramePosition::default(),
    };
    let mut stream = match FrameStream::open(awebp_bytes) {
        Ok(stream) => stream,
        Err(e) => {
            return Err(e);
        },
    };
    match stream.select_one(position) {
        Ok(frame) => encode(frame),
        Err(e) => Err(e),
    }
}

/// Converts every frame of an animation to a PNG file, in the order in which
/// the frames are decoded. The first frame that fails ends the conversion
/// with its error.
pub fn awebp_to_multi_png(awebp_bytes: &[u8]) -> (pngs: Result<Vec<Vec<u8>>, AwebpToPngError>)
    ensures
        pngs_view(pngs) == multi_png(awebp_bytes@),
        pngs matches Ok(files) ==> webp_frames(awebp_bytes@) matches Some(frames) && files@.len()
            == frames.len(),
        awebp_bytes@.len() == 0 ==> pngs_view(pngs) == Err::<Seq<Seq<u8>>, AwebpToPngError>(
            AwebpToPngError::DecodeAwebpFailed,
        ),
{
    let mut stream = match FrameStream::open(awebp_bytes) {
        Ok(stream) => stream,
        Err(e) => {
            return Err(e);
        },
    };
    let frames = stream.select_all();
    encode_all(frames)
}

} // verus!
