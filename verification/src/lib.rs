//! Core of a terminal audio-preview player.
//!
//! The crate holds the verified logic of the player: the wrapping selection
//! list shown in the track panel, the synchronous bridge that turns a chunked
//! byte stream into a blocking byte source, the format probe and the decode
//! engine's frame sequencing, the per-track playback controller with its
//! sink model, and the decision functions of the event loops. Terminal,
//! network and audio-device plumbing live outside, in the thin binary that
//! drives these types.

pub mod bridge;
pub mod controller;
pub mod coordinator;
pub mod decode;
pub mod errors;
pub mod search;
pub mod selection;
pub mod sink;
pub mod timestamp;
pub mod ui_model;
