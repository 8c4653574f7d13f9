//! Conversion of 24-bit colour and grayscale pixels into ANSI SGR escape
//! sequences, in truecolor mode or quantized to the 256-colour palette.

pub mod encode;
pub mod palette;
pub mod quantize;

pub use encode::{push_decimal, push_indexed, push_truecolor, AnsiPixel};
pub use palette::{gray_to_256, palette_color};
pub use quantize::{dist, luma, rgb_to_256, rgb_xyz_256, ColorAttributes, MAX_DISTANCE};
