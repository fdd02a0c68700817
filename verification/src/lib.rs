//! Composition of structured chat messages.
//!
//! The library covers the two ways such a message comes to be:
//! a compact textual grammar that is parsed and checked in one go
//! (`json` and `message`), and an interactive, step-by-step wizard
//! that accumulates the same structure from a sequence of prompt
//! results (`prompts`).  Either path ends in `payload`, which turns
//! the parsed tree into the concrete value handed to the sender.

pub mod colour;
pub mod convert;
pub mod errors;
pub mod json;
pub mod message;
pub mod misc;
pub mod payload;
pub mod permissions;
pub mod prompts;
pub mod text;
pub mod version_data;
