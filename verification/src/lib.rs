//! Desktop-side control plane of a voice assistant.
//!
//! The crate verifies the three tightly coupled parts of that control plane:
//! the supervisor of the external inference worker with its line-oriented
//! request/response protocol, the audio capture pipeline (downmix, resample,
//! RIFF/WAVE encoding), and the global operation state machine with its
//! priority-based interruption policy.  Process, pipe and device I/O stays in
//! the surrounding application; every decision those loops take is a verified
//! function of this crate.

pub mod audio;
pub mod context;
pub mod detector;
pub mod events;
pub mod handshake;
pub mod history;
pub mod keys;
pub mod messages;
pub mod modes;
pub mod protocol;
pub mod request;
pub mod results;
pub mod status;
pub mod strutil;
