//! Decisions of the event loops.
//!
//! Two loops act on terminal events: the input loop, which stops the
//! session, forces a redraw, or forwards the event to the active track's
//! loop; and the track loop, which turns a forwarded event into advancing
//! the list, opening the external search page, or requesting a preview.
//! The decisions are functions from event to action and are proved here;
//! the loops that block on channels run outside this crate and only carry
//! the actions out.

use vstd::prelude::*;

use crate::selection::next_position;
use crate::selection::SelectableList;
use crate::ui_model::HighlightTag;
use crate::ui_model::TrackEntry;

verus! {

/// The keys the player distinguishes on a key press.
#[derive(Clone, Copy, Debug, PartialEq, Eq, Structural)]
pub enum KeyInput {
    /// A printable character.
    Char(char),
    /// The enter key.
    Enter,
    /// Any other key.
    Other,
}

/// A terminal event, as the coordinator sees it.
#[derive(Clone, Copy, Debug, PartialEq, Eq, Structural)]
pub enum TermEvent {
    Key(KeyInput),
    Resize,
    Mouse,
    Paste,
    FocusGained,
    FocusLost,
}

/// What the input loop does with one terminal event.
#[derive(Clone, Copy, Debug, PartialEq, Eq, Structural)]
pub struct InputRouting {
    /// End the session: tear the terminal down and exit.
    pub quit: bool,
    /// Wake the render loop for a redraw.
    pub force_redraw: bool,
    /// Hand the event on to the active track's loop.
    pub forward: bool,
}

/// The input loop's decision on one event. Quit and resize are special-
/// cased: the quit key ends the session, a resize forces a redraw, and
/// neither is forwarded; every other event is forwarded to the track
/// loop, and nothing else.
pub open spec fn routing_of(e: TermEvent) -> InputRouting {
    if e == TermEvent::Key(KeyInput::Char('q')) {
        InputRouting { quit: true, force_redraw: false, forward: false }
    } else if e is Resize {
        InputRouting { quit: false, force_redraw: true, forward: false }
    } else {
        InputRouting { quit: false, force_redraw: false, forward: true }
    }
}

/// Decide what the input loop does with `e`, exactly as [`routing_of`]
/// says.
pub fn route_event(e: &TermEvent) -> (r: InputRouting)
    ensures
        r == routing_of(*e),
{
    match e {
        TermEvent::Key(KeyInput::Char(c)) => {
            if *c == 'q' {
                InputRouting { quit: true, force_redraw: false, forward: false }
            } else {
                InputRouting { quit: false, force_redraw: false, forward: true }
            }
        },
        TermEvent::Resize => InputRouting { quit: false, force_redraw: true, forward: false },
        _ => InputRouting { quit: false, force_redraw: false, forward: true },
    }
}

/// What the track loop does with one forwarded event.
#[derive(Clone, Copy, Debug, PartialEq, Eq, Structural)]
pub enum TrackCommand {
    /// Advance the track list and move on to the next track.
    Advance,
    /// Open the external search page for the track.
    OpenExternal,
    /// Send a play intent to the track's controller.
    RequestPreview,
    /// Nothing.
    Ignore,
}

/// The track loop's decision on one forwarded event: enter advances; the
/// search key opens the external page; the preview keys request playback,
/// but only when the track has a preview resource; everything else is
/// ignored.
pub open spec fn command_of(e: TermEvent, has_preview: bool) -> TrackCommand {
    if e == TermEvent::Key(KeyInput::Enter) {
        TrackCommand::Advance
    } else if e == TermEvent::Key(KeyInput::Char('y')) {
        TrackCommand::OpenExternal
    } else if e == TermEvent::Key(KeyInput::Char('p')) || e == TermEvent::Key(
        KeyInput::Char(' '),
    ) {
        if has_preview {
            TrackCommand::RequestPreview
        } else {
            TrackCommand::Ignore
        }
    } else {
        TrackCommand::Ignore
    }
}

/// Decide what the track loop does with `e`, exactly as [`command_of`]
/// says.
pub fn interpret_track_event(e: &TermEvent, has_preview: bool) -> (c: TrackCommand)
    ensures
        c == command_of(*e, has_preview),
{
    match e {
        TermEvent::Key(KeyInput::Enter) => TrackCommand::Advance,
        TermEvent::Key(KeyInput::Char(c)) => {
            if *c == 'y' {
                TrackCommand::OpenExternal
            } else if (*c == 'p' || *c == ' ') && has_preview {
                TrackCommand::RequestPreview
            } else {
                TrackCommand::Ignore
            }
        },
        _ => TrackCommand::Ignore,
    }
}

/// Carry an advance out on the track list: the selection moves one entry
/// forward, wrapping as always, and the newly selected entry is recolored
/// as finished; every other entry keeps label and tag, and the recolored
/// one keeps its label.
pub fn advance_selection(list: &mut SelectableList<TrackEntry>)
    requires
        old(list).entries().len() > 0,
    ensures
        final(list).wf(),
        final(list).entries().len() == old(list).entries().len(),
        final(list).selection() matches Some(j) && j == next_position(
            old(list).selection(),
            old(list).entries().len() as int,
        ),
        forall|k: int|
            0 <= k < old(list).entries().len() && k != next_position(
                old(list).selection(),
                old(list).entries().len() as int,
            ) ==> final(list).entries()[k] == old(list).entries()[k],
        ({
            let j = next_position(old(list).selection(), old(list).entries().len() as int);
            &&& final(list).entries()[j].label == old(list).entries()[j].label
            &&& final(list).entries()[j].tag is Done
        }),
    {
    list.next();
    let i = match list.selected() {
        Some(i) => i,
        None => 0,
    };
    let label = list.get(i).label.clone();
    list.set_entry(i, TrackEntry { label, tag: HighlightTag::Done });
}

} // verus!
