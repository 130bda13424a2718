//! A small multiple-choice quiz library: an immutable question bank, a
//! session engine that tracks progress and score, and a selection helper
//! that draws a random subset of questions for a session.

pub mod engine;
pub mod quiz;
pub mod select;
