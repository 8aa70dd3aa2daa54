//! The decisions behind a bot that greets whoever joins a voice channel with
//! the sound its guild has registered: the table of registered sounds, the
//! intake of a new clip, the detection of a join, and the life of the voice
//! session that plays the sound once and leaves.
//!
//! Everything here works on plain values. Talking to the chat gateway and to
//! the audio backend is left to the caller, which carries out the commands
//! these functions hand back and reports what came of them.

pub mod detector;
pub mod ingestion;
pub mod registry;
pub mod scratch;
pub mod session;
