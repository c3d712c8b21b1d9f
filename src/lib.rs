//! Incremental decoding of a streamed chat completion, with the small
//! value types (colors, conversation messages) that travel with it.

pub mod color;
pub mod message;
pub mod frame;
pub mod decoder;
pub mod laws;
