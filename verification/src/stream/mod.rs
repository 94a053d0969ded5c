//! The event-stream decoder: byte chunks in, frames out, in wire order.

pub mod decoder;
pub mod framing;
pub mod laws;
pub mod run;
pub mod scanner;
pub mod text;
