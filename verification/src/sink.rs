//! Occupancy model of the playback sink.
//!
//! The sink consumes one fully-owned frame source at a time and renders it
//! to the audio device. Its only completion signal is emptiness: a stop
//! discards in-flight audio synchronously, so emptiness reflects it at
//! once, and natural completion drains it. The device write itself happens
//! outside this crate; what is modeled and proved here is the occupancy the
//! controller's decisions depend on.

use vstd::prelude::*;

use crate::decode::DecodeEngine;

verus! {

/// One output-device queue, holding at most one frame source.
pub struct PlaybackSink {
    queued: Option<DecodeEngine>,
}

impl PlaybackSink {
    /// Whether a frame source is queued: the sink is not empty.
    pub closed spec fn occupied(self) -> bool {
        self.queued is Some
    }

    /// A fresh, empty sink for one track's playback.
    pub fn new() -> (s: PlaybackSink)
        ensures
            !s.occupied(),
    {
        PlaybackSink { queued: None }
    }

    /// Enqueue one fully-owned frame source; the sink plays one source at
    /// a time, so a new one may come only once the sink is empty.
    pub fn append(&mut self, source: DecodeEngine)
        requires
            !old(self).occupied(),
        ensures
            final(self).occupied(),
    {
        self.queued = Some(source);
    }

    /// Halt and discard the in-flight audio. The discard is synchronous:
    /// the sink is empty the moment the call returns.
    pub fn stop(&mut self)
        ensures
            !final(self).occupied(),
    {
        self.queued = None;
    }

    /// The queued source was played to completion by the device; the sink
    /// is empty again.
    pub fn drain(&mut self)
        ensures
            !final(self).occupied(),
    {
        self.queued = None;
    }

    /// Whether nothing is queued. Emptiness is the sink's only completion
    /// signal.
    pub fn is_empty(&self) -> (r: bool)
        ensures
            r == !self.occupied(),
    {
        match &self.queued {
            Some(_) => false,
            None => true,
        }
    }
}

} // verus!
