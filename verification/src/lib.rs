//! Core logic of a small animated-image viewer: a frame-decoding pipeline
//! and the application state machine that steps a cursor over the decoded
//! frames.

pub mod decode;
pub mod frame;
pub mod laws;
pub mod project;
