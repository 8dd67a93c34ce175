//! The data the terminal panels are drawn from.
//!
//! Per track the panels show title, artist, album and a duration label,
//! next to the track list; the whole view is one closed union, replaced
//! wholesale on track advance, so a reader always sees one consistent
//! value. Drawing itself happens outside this crate; here live the plain
//! values it reads.

use vstd::prelude::*;

use crate::selection::SelectableList;
use crate::timestamp::display_timestamp;
use crate::timestamp::timestamp_label;

verus! {

/// How one track-list entry is highlighted.
#[derive(Clone, Copy, Debug, PartialEq, Eq, Structural)]
pub enum HighlightTag {
    /// Not yet passed: drawn in the plain list color.
    Plain,
    /// Advanced past: recolored as finished.
    Done,
}

/// One entry of the track list: a label and its highlight tag.
#[derive(Clone, Debug)]
pub struct TrackEntry {
    pub label: String,
    pub tag: HighlightTag,
}

/// What the track panel shows of the current track.
#[derive(Clone, Debug)]
pub struct SpotifyUi {
    pub title: String,
    pub artist: String,
    /// The raw bytes of the cover image, as fetched; decoding and drawing
    /// them is the renderer's business.
    pub cover_img: Vec<u8>,
    pub album_name: String,
    pub album_kind: String,
    /// Track duration in milliseconds.
    pub duration_ms: u64,
}

impl SpotifyUi {
    /// The duration as the `minutes:seconds` label the panel shows.
    pub fn duration_label(&self) -> (s: String)
        ensures
            s@ == timestamp_label(self.duration_ms as nat),
    {
        display_timestamp(self.duration_ms)
    }
}

/// The whole screen's state: the greeting before any track, or one
/// track's metadata beside a snapshot of the track list. Published as one
/// value, last write wins; readers may skip intermediate values but never
/// see a partial one.
#[derive(Clone, Debug)]
pub enum UiState {
    Welcome,
    TrackView(SpotifyUi, SelectableList<TrackEntry>),
}

} // verus!
