//! Verified task coordination for small cooperative firmware: a
//! single-writer, multi-reader broadcast latch, a race between two
//! suspension points, and a round-robin scheduler model to run them in.

pub mod poll;
pub mod latch;
pub mod latch_trace;
pub mod source;
pub mod race;
pub mod scheduler;
pub mod tasks;
pub mod color;
