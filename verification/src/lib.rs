//! Pixel values with three or four channels, in RGB or BGR storage order,
//! together with flat channel and byte views of them.

pub mod alt;
pub mod bgr;
pub mod bgra;
pub mod channel;
pub mod color;
pub mod equality;
pub mod laws;
pub mod order;
pub mod pixel;
pub mod rgb;
pub mod rgba;

pub use crate::color::RGB;
pub use crate::color::RGBA;
