//! Faults of one playback attempt.
//!
//! Every fault of fetching, probing, decoding or device output is caught at
//! the controller boundary and degrades that track to silence; none of them
//! aborts track iteration. Terminal faults are not here: they are fatal and
//! belong to the process boundary outside this crate.

use vstd::prelude::*;

verus! {

/// Why a playback attempt produced no audio.
#[derive(Clone, Copy, Debug, PartialEq, Eq, Structural)]
pub enum PlaybackError {
    /// The resource could not be fetched over the network.
    Fetch,
    /// The start of the byte stream matched no known container format.
    Probe,
    /// The stream turned corrupt in the middle of decoding.
    Decode,
    /// The audio output device was unavailable.
    Device,
}

} // verus!
