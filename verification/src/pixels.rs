use vstd::prelude::*;

use image::ImageEncoder;

use crate::error::AwebpToPngError;

verus! {

/// `image::ImageError`.
#[verifier::external_type_specification]
#[verifier::external_body]
pub struct ExImageError(image::ImageError);

/// The PNG file that `image` writes for `width` by `height` RGBA pixels of
/// one byte per channel, or `None` where its encoder refuses them. Short of
/// running out of memory, the file depends on nothing but the pixels and the
/// two dimensions.
pub uninterp spec fn png_of(data: Seq<u8>, width: u32, height: u32) -> Option<Seq<u8>>;

/// `ImageEncoder::write_image` of `image::codecs::png::PngEncoder`, on an
/// encoder made by `PngEncoder::new` over `out`, with the colour type
/// `Rgba8`. It panics unless there are four bytes for each pixel, which the
/// precondition asks for. Trusted: where it succeeds it has appended the PNG
/// file of these pixels to `out`; whether it succeeds depends on the pixels
/// and the dimensions alone; an image without width or without height is
/// refused.
#[verifier::external_body]
fn png_write_image(out: &mut Vec<u8>, data: &[u8], width: u32, height: u32) -> (written: Result<
    (),
    image::ImageError,
>)
    requires
        fills(data@.len(), width, height, 4),
    ensures
        match written {
            Ok(_) => png_of(data@, width, height) matches Some(file) && final(out)@ == old(out)@
                + file,
            Err(_) => png_of(data@, width, height) is None,
        },
        width == 0 || height == 0 ==> written is Err,
{
    image::codecs::png::PngEncoder::new(out).write_image(
        data,
        width,
        height,
        image::ColorType::Rgba8,
    )
}

/// Whether `len` bytes hold exactly `width` by `height` pixels of
/// `pixel_bytes` bytes each.
pub open spec fn fills(len: nat, width: u32, height: u32, pixel_bytes: nat) -> bool {
    len == width * height * pixel_bytes
}

/// Decides `fills` without overflow.
pub fn holds_exactly(len: usize, width: u32, height: u32, pixel_bytes: u8) -> (yes: bool)
    ensures
        yes == fills(len as nat, width, height, pixel_bytes as nat),
{
    assert(width * height <= 0xFFFF_FFFF * 0xFFFF_FFFF) by (nonlinear_arith)
        requires
            width <= 0xFFFF_FFFF,
            height <= 0xFFFF_FFFF,
    ;
    let pixels: u64 = (width as u64) * (height as u64);
    assert(pixels * pixel_bytes <= 0xFFFF_FFFF_FFFF_FFFF * 0xFF) by (nonlinear_arith)
        requires
            pixels <= 0xFFFF_FFFF_FFFF_FFFF,
            pixel_bytes <= 0xFF,
    ;
    let bytes: u128 = (pixels as u128) * (pixel_bytes as u128);
    bytes == len as u128
}

/// What a pixel buffer holds: RGBA pixels of one byte per channel.
pub struct PixelData {
    /// The width in pixels.
    pub width: u32,
    /// The height in pixels.
    pub height: u32,
    /// Four bytes per pixel, row by row.
    pub data: Seq<u8>,
}

/// An image of RGBA pixels, one byte per channel. Its bytes always number
/// four times width times height.
pub struct PixelBuffer {
    width: u32,
    height: u32,
    data: Vec<u8>,
}

impl View for PixelBuffer {
    type V = PixelData;

    closed spec fn view(&self) -> PixelData {
        PixelData { width: self.width, height: self.height, data: self.data@ }
    }
}

impl PixelData {
    /// Whether there are four bytes for each pixel.
    pub open spec fn well_formed(self) -> bool {
        fills(self.data.len(), self.width, self.height, 4)
    }
}

impl PixelBuffer {
    #[verifier::type_invariant]
    spec fn filled(self) -> bool {
        fills(self.data@.len(), self.width, self.height, 4)
    }

    /// Makes a pixel buffer of its parts, where there are four bytes for
    /// each pixel.
    pub fn new(width: u32, height: u32, data: Vec<u8>) -> (buffer: Option<PixelBuffer>)
        ensures
            buffer is Some <==> fills(data@.len(), width, height, 4),
            buffer matches Some(b) ==> b@ == (PixelData { width, height, data: data@ }),
    {
        if holds_exactly(data.len(), width, height, 4) {
            Some(PixelBuffer { width, height, data })
        } else {
            None
        }
    }

    /// The width in pixels.
    pub fn width(&self) -> (width: u32)
        ensures
            width == self@.width,
    {
        self.width
    }

    /// The height in pixels.
    pub fn height(&self) -> (height: u32)
        ensures
            height == self@.height,
    {
        self.height
    }

    /// The pixels as bytes, four for each pixel.
    pub fn as_bytes(&self) -> (data: &[u8])
        ensures
            data@ == self@.data,
            self@.well_formed(),
    {
        proof {
            use_type_invariant(self);
        }
        self.data.as_slice()
    }

    /// Makes a pixel buffer of parts that are known to fit.
    pub(crate) fn from_parts(width: u32, height: u32, data: Vec<u8>) -> (buffer: PixelBuffer)
        requires
            fills(data@.len(), width, height, 4),
        ensures
            buffer@ == (PixelData { width, height, data: data@ }),
    {
        PixelBuffer { width, height, data }
    }

    /// Writes the pixels as a PNG file into a new buffer, which starts with
    /// room for as many bytes as the pixels take. An image that the encoder
    /// refuses gives `EncodePngFailed`; one without width or without height
    /// is always refused.
    pub fn to_png(&self) -> (png: Result<Vec<u8>, AwebpToPngError>)
        ensures
            match png_of(self@.data, self@.width, self@.height) {
                Some(file) => png matches Ok(bytes) && bytes@ == file,
                None => png matches Err(e) && e == AwebpToPngError::EncodePngFailed,
            },
            self@.width == 0 || self@.height == 0 ==> png is Err,
    {
        proof {
            use_type_invariant(self);
        }
        let mut out: Vec<u8> = Vec::with_capacity(self.data.len());
        match png_write_image(&mut out, self.data.as_slice(), self.width, self.height) {
            Ok(_) => Ok(out),
            Err(_) => Err(AwebpToPngError::EncodePngFailed),
        }
    }
}

} // verus!
