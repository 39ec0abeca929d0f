//! Decoding of JPEG 2000 codestreams into RGBA bitmaps.
//!
//! The library holds the verified part of a decoder built around an external
//! JPEG 2000 engine: the in-memory stream the engine reads from, the session
//! state machine that tracks which engine resources are held, the resolution
//! of the engine's colour space code, and the reassembly of decoded component
//! planes into an interleaved RGBA bitmap.
pub mod color;
pub mod error;
pub mod codec;
pub mod stream;
pub mod assemble;
pub mod decode;
pub mod session;
