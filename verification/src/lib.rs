//! Image asset decoding for a 2D game: raw encoded image bytes become an
//! 8-bit RGBA pixel buffer together with a per-pixel collision mask, a bitset
//! that marks every pixel whose alpha byte is non-zero.

pub mod bitset;
pub mod config;
pub mod decode;

pub use crate::config::{CodecConfig, ImageFormat};
pub use crate::decode::{decode, Image, ImageLoaderError};
