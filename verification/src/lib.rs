//! Text bitmaps for a host-drawn 2D canvas.
//!
//! The host measures and draws text into a buffer of packed 32-bit colours;
//! this library decides what happens between those host calls and repacks
//! the drawn buffer into interleaved R, G, B, A bytes.

pub mod color;
pub mod convert;
pub mod render;
