use vstd::prelude::*;

use crate::error::AwebpToPngError;
use crate::pixels::{fills, holds_exactly, PixelBuffer, PixelData};

verus! {

/// How the bytes of a decoded frame are laid out, pixel by pixel.
#[derive(Debug, Copy, Clone, PartialEq, Eq, Structural)]
pub enum PixelLayout {
    /// Red, green, blue.
    Rgb,
    /// Red, green, blue, alpha.
    Rgba,
    /// Blue, green, red, alpha.
    Bgra,
    /// Blue, green, red.
    Bgr,
}

impl PixelLayout {
    /// The number of bytes that one pixel takes.
    pub open spec fn pixel_bytes(self) -> nat {
        match self {
            PixelLayout::Rgb | PixelLayout::Bgr => 3,
            PixelLayout::Rgba | PixelLayout::Bgra => 4,
        }
    }

    /// The number of bytes that one pixel takes.
    pub fn bytes_per_pixel(&self) -> (n: u8)
        ensures
            n == self.pixel_bytes(),
    {
        match self {
            PixelLayout::Rgb | PixelLayout::Bgr => 3,
            PixelLayout::Rgba | PixelLayout::Bgra => 4,
        }
    }
}

/// What a decoded frame holds.
pub struct FrameData {
    /// When the frame is shown, in milliseconds from the start.
    pub timestamp: i32,
    /// How `data` is laid out.
    pub layout: PixelLayout,
    /// The width of the canvas in pixels.
    pub width: u32,
    /// The height of the canvas in pixels.
    pub height: u32,
    /// The pixels, row by row.
    pub data: Seq<u8>,
}

/// One frame as the decoder hands it out. Its bytes always fill its canvas
/// in its layout.
pub struct DecodedFrame {
    pub(crate) timestamp: i32,
    pub(crate) layout: PixelLayout,
    pub(crate) width: u32,
    pub(crate) height: u32,
    pub(crate) data: Vec<u8>,
}

impl View for DecodedFrame {
    type V = FrameData;

    closed spec fn view(&self) -> FrameData {
        FrameData {
            timestamp: self.timestamp,
            layout: self.layout,
            width: self.width,
            height: self.height,
            data: self.data@,
        }
    }
}

/// The views of some frames, in the same order.
pub open spec fn frame_views(frames: Seq<DecodedFrame>) -> Seq<FrameData> {
    frames.map_values(|frame: DecodedFrame| frame@)
}

impl FrameData {
    /// Whether the bytes fill the canvas in the frame's layout.
    pub open spec fn well_formed(self) -> bool {
        fills(self.data.len(), self.width, self.height, self.layout.pixel_bytes())
    }

    /// The frame as an RGBA pixel buffer, where its layout is RGBA.
    pub open spec fn rgba(self) -> Option<PixelData> {
        if self.layout == PixelLayout::Rgba {
            Some(PixelData { width: self.width, height: self.height, data: self.data })
        } else {
            None
        }
    }
}

impl DecodedFrame {
    #[verifier::type_invariant]
    spec fn filled(self) -> bool {
        fills(self.data@.len(), self.width, self.height, self.layout.pixel_bytes())
    }

    /// Makes a frame of its parts, where the bytes fill the canvas.
    pub fn new(timestamp: i32, layout: PixelLayout, width: u32, height: u32, data: Vec<u8>) -> (frame:
        Option<DecodedFrame>)
        ensures
            frame is Some <==> fills(data@.len(), width, height, layout.pixel_bytes()),
            frame matches Some(f) ==> f@ == (FrameData { timestamp, layout, width, height, data: data@ }),
    {
        if holds_exactly(data.len(), width, height, layout.bytes_per_pixel()) {
            Some(DecodedFrame { timestamp, layout, width, height, data })
        } else {
            None
        }
    }

    /// When the frame is shown, in milliseconds from the start.
    pub fn timestamp(&self) -> (timestamp: i32)
        ensures
            timestamp == self@.timestamp,
    {
        self.timestamp
    }

    /// How the frame's bytes are laid out.
    pub fn layout(&self) -> (layout: PixelLayout)
        ensures
            layout == self@.layout,
    {
        self.layout
    }

    /// The width and the height of the frame in pixels.
    pub fn dimensions(&self) -> (dimensions: (u32, u32))
        ensures
            dimensions == (self@.width, self@.height),
    {
        (self.width, self.height)
    }

    /// The frame's bytes, which fill its canvas in its layout.
    pub fn data(&self) -> (data: &[u8])
        ensures
            data@ == self@.data,
            self@.well_formed(),
    {
        proof {
            use_type_invariant(self);
        }
        self.data.as_slice()
    }

    /// Turns the frame into an RGBA pixel buffer. A frame in another layout
    /// is refused with `ToImageFailed`.
    pub fn into_image(self) -> (image: Result<PixelBuffer, AwebpToPngError>)
        ensures
            match self@.rgba() {
                Some(pixels) => image matches Ok(buffer) && buffer@ == pixels,
                None => image == Err::<PixelBuffer, AwebpToPngError>(AwebpToPngError::ToImageFailed),
            },
    {
        proof {
            use_type_invariant(&self);
        }
        match self.layout {
            PixelLayout::Rgba => Ok(PixelBuffer::from_parts(self.width, self.height, self.data)),
            _ => Err(AwebpToPngError::ToImageFailed),
        }
    }
}

} // verus!
