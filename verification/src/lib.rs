//! An audio capture engine: the lifecycle of recording a microphone input to
//! an uncompressed PCM container file.
//!
//! The engine is split into
//! - a PCM stream encoder ([`wav::WavWriter`]) that accumulates sample bytes
//!   and produces a finished container with a patched header,
//! - a capture session state machine ([`recorder::CaptureCore`]) shared by the
//!   two backend variants,
//! - the generic backend ([`recorder::RecorderState`]) and the pipeline
//!   backend ([`gstreamer_recorder::GStreamerRecorder`]), and
//! - a facade ([`commands::AudioRecorderImpl`]) that selects a backend at
//!   construction time with a fallback rule.
//!
//! Platform audio drivers, the file system and the request dispatch layer are
//! outside collaborators: they hand sample bytes in and carry finished
//! container bytes out.

pub mod commands;
pub mod errors;
pub mod gstreamer_recorder;
pub mod recorder;
pub mod wav;
