//! The boundary between an audio engine's render call and a typed callback:
//! stream format matching, zero-copy buffer views, render action flags, and
//! the protocol by which a callback is registered, replaced and released.

pub mod action_flags;
pub mod audio_unit;
pub mod buffer;
pub mod error;
pub mod format;
pub mod render;
