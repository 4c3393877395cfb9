//! Request plumbing and decision logic for Handy's cloud transcription engines.

pub mod text;
pub mod remote;
pub mod session;
pub mod wav;
pub mod codex;
pub mod groq;
pub mod recovery;
pub mod utils;
