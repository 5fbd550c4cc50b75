//! Picks frames out of an animated WebP image and turns each into a PNG file
//! held in memory.
//!
//! The animation is decoded by `webp_animation` and the PNG is written by
//! `image`. What lies between the two is here: which frame a position names,
//! how far the decoder is driven to reach it, when a frame counts as an RGBA
//! pixel buffer, and which error a conversion ends in.

pub mod convert;
pub mod decoder;
pub mod error;
pub mod frame;
pub mod laws;
pub mod pixels;
pub mod position;

pub use convert::{awebp_to_multi_png, awebp_to_single_png, encode, encode_all};
pub use decoder::FrameStream;
pub use error::AwebpToPngError;
pub use frame::{DecodedFrame, PixelLayout};
pub use pixels::PixelBuffer;
pub use position::AwebpFramePosition;
