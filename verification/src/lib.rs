//! Core of a voice-to-clipboard transcription tool: the audio capture and
//! recording-lifecycle engine.
//!
//! The library owns the sample buffer model, the encode-on-stop conversion
//! pipeline (mono mix, decimation, WAV container, base64 payload), the
//! keyboard-shortcut grammar, and the lifecycle state machine that sequences
//! start, stop, encode and transcribe. Device handles, threads, HTTP and the
//! window layer live outside the library and drive it through these types.

pub mod lifecycle;
pub mod payload;
pub mod pcm;
pub mod recorder;
pub mod shortcut;
pub mod transcription;
pub mod wav;
