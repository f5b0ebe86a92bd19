//! Typed, zero-copy accessors over a word-structured message arena, and the
//! capability dispatch and promise-pipelining rules that ride on top of it.

pub mod error;
pub mod layout;
pub mod traits;
pub mod pipeline;
pub mod servers;
