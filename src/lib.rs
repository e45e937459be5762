//! Emulation of the graphics unit of a monochrome handheld console: video
//! memory, tile decoding, register encoding, scanline rendering and the
//! mode/cycle timing machine.

pub mod color;
pub mod registers;
pub mod gpu;
