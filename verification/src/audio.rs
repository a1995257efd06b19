//! Speech for dialogue lines.
pub mod tts;
