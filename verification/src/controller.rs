//! Per-track playback controller.
//!
//! The controller owns one sink and serializes play intents against it. An
//! intent that finds the sink empty starts exactly one playback attempt;
//! an intent that finds it occupied stops the sink and is wholly consumed
//! by the stop, so another intent is needed before anything plays again.
//! An attempt resolves either into a frame source, which occupies the
//! sink, or into a fault, which leaves the sink empty, ends the attempt
//! and is never retried on its own.

use vstd::prelude::*;

use crate::decode::DecodeEngine;
use crate::errors::PlaybackError;
use crate::sink::PlaybackSink;

verus! {

/// The two externally visible states of a controller.
#[derive(Clone, Copy, Debug, PartialEq, Eq, Structural)]
pub enum ControllerPhase {
    /// Nothing plays and no attempt is under way.
    Idle,
    /// An attempt is under way or the sink holds audio.
    Playing,
}

/// What the caller must do after handing the controller a play intent.
#[derive(Clone, Copy, Debug, PartialEq, Eq, Structural)]
pub enum PlayAction {
    /// Build one playback attempt: fetch the resource, bridge and probe
    /// it, and resolve the attempt with the outcome.
    StartAttempt,
    /// Nothing: the intent was consumed by stopping the sink.
    StopPlayback,
}

/// How one playback attempt came out.
pub enum AttemptOutcome {
    /// The stream was fetched and probed; here is its frame source.
    Ready(DecodeEngine),
    /// The attempt failed on the way; that track stays silent.
    Failed(PlaybackError),
}

/// The controller's state, as the contracts speak of it.
pub ghost struct ControllerModel {
    /// The sink holds a frame source.
    pub sink_occupied: bool,
    /// A play intent was accepted and its attempt has not resolved yet.
    pub attempt_pending: bool,
    /// How many attempts were ever started.
    pub attempts: nat,
}

impl ControllerModel {
    /// While an attempt is being built nothing has reached the sink yet.
    pub open spec fn wf(self) -> bool {
        self.attempt_pending ==> !self.sink_occupied
    }

    /// The externally visible state: playing from the moment an intent is
    /// accepted until the sink is empty again with no attempt under way.
    pub open spec fn phase(self) -> ControllerPhase {
        if self.sink_occupied || self.attempt_pending {
            ControllerPhase::Playing
        } else {
            ControllerPhase::Idle
        }
    }
}

/// The controller's move on one play intent: an empty sink means one new
/// attempt starts; an occupied sink is stopped, which consumes the intent
/// and starts nothing.
pub open spec fn play_step(c: ControllerModel) -> (ControllerModel, PlayAction)
    recommends
        !c.attempt_pending,
{
    if c.sink_occupied {
        ((ControllerModel { sink_occupied: false, ..c }), PlayAction::StopPlayback)
    } else {
        (
            (ControllerModel { attempt_pending: true, attempts: c.attempts + 1, ..c }),
            PlayAction::StartAttempt,
        )
    }
}

/// The controller's move when the pending attempt resolves: a ready frame
/// source occupies the sink; a fault leaves it empty. Either way the
/// attempt is over and no new one starts by itself.
pub open spec fn resolve_step(c: ControllerModel, ready: bool) -> ControllerModel
    recommends
        c.attempt_pending,
{
    ControllerModel { sink_occupied: ready, attempt_pending: false, ..c }
}

/// The controller's move when the sink drains naturally: empty sink, and
/// nothing else moves.
pub open spec fn finished_step(c: ControllerModel) -> ControllerModel {
    ControllerModel { sink_occupied: false, ..c }
}

/// An idle controller accepts a play intent by starting exactly one
/// attempt, and the sink stays empty until that attempt resolves; a ready
/// resolution then takes the sink from empty to occupied.
pub proof fn lemma_play_from_idle_starts_one_attempt(c: ControllerModel)
    requires
        c.wf(),
        c.phase() is Idle,
    ensures
        play_step(c).1 is StartAttempt,
        play_step(c).0.attempts == c.attempts + 1,
        !play_step(c).0.sink_occupied,
        play_step(c).0.phase() is Playing,
        resolve_step(play_step(c).0, true).sink_occupied,
{
}

/// A play intent reaching a playing controller empties the sink at once
/// and starts no new attempt: the intent is wholly consumed by the stop,
/// and only a later intent can start playback again.
pub proof fn lemma_play_while_playing_stops(c: ControllerModel)
    requires
        c.wf(),
        !c.attempt_pending,
        c.phase() is Playing,
    ensures
        play_step(c).1 is StopPlayback,
        !play_step(c).0.sink_occupied,
        play_step(c).0.attempts == c.attempts,
        play_step(c).0.phase() is Idle,
{
}

/// A failed attempt (no matter which fault) resolves to an idle controller
/// with the sink still empty, and the failure is not retried by itself:
/// the attempt count stands.
pub proof fn lemma_failed_attempt_stays_silent(c: ControllerModel)
    requires
        c.wf(),
        c.attempt_pending,
    ensures
        !resolve_step(c, false).sink_occupied,
        resolve_step(c, false).phase() is Idle,
        resolve_step(c, false).attempts == c.attempts,
{
}

/// Nothing but a play intent on an empty sink ever starts an attempt:
/// resolving an attempt, draining the sink and stopping playback all
/// leave the attempt count where it was. Until another intent arrives,
/// nothing new plays.
pub proof fn lemma_attempts_start_only_on_play(c: ControllerModel, ready: bool)
    ensures
        resolve_step(c, ready).attempts == c.attempts,
        finished_step(c).attempts == c.attempts,
        c.sink_occupied ==> play_step(c).0.attempts == c.attempts,
{
}

/// State machine owning one track's sink and serializing its play intents.
pub struct PlaybackController {
    sink: PlaybackSink,
    attempt_in_flight: bool,
    attempts_started: Ghost<nat>,
}

impl PlaybackController {
    /// The state the contracts speak of.
    pub closed spec fn model(self) -> ControllerModel {
        ControllerModel {
            sink_occupied: self.sink.occupied(),
            attempt_pending: self.attempt_in_flight,
            attempts: self.attempts_started@,
        }
    }

    /// A fresh controller over a fresh, empty sink: idle, no attempt ever
    /// started.
    pub fn new() -> (c: PlaybackController)
        ensures
            c.model().wf(),
            c.model().phase() is Idle,
            c.model().attempts == 0,
    {
        PlaybackController {
            sink: PlaybackSink::new(),
            attempt_in_flight: false,
            attempts_started: Ghost(0),
        }
    }

    /// Accept one play intent, exactly as [`play_step`] decides: start one
    /// attempt if the sink is empty, otherwise stop the sink and consume
    /// the intent. Intents are serialized: none is accepted while an
    /// attempt is still being built.
    pub fn handle_play(&mut self) -> (a: PlayAction)
        requires
            old(self).model().wf(),
            !old(self).model().attempt_pending,
        ensures
            final(self).model().wf(),
            (final(self).model(), a) == play_step(old(self).model()),
    {
        if self.sink.is_empty() {
            self.attempt_in_flight = true;
            self.attempts_started = Ghost(self.attempts_started@ + 1);
            PlayAction::StartAttempt
        } else {
            self.sink.stop();
            PlayAction::StopPlayback
        }
    }

    /// Resolve the pending attempt, exactly as [`resolve_step`] decides: a
    /// ready frame source goes into the sink; a fault is swallowed here,
    /// at the controller boundary, and the track stays silent.
    pub fn resolve_attempt(&mut self, outcome: AttemptOutcome)
        requires
            old(self).model().wf(),
            old(self).model().attempt_pending,
        ensures
            final(self).model().wf(),
            final(self).model() == resolve_step(old(self).model(), outcome is Ready),
    {
        self.attempt_in_flight = false;
        match outcome {
            AttemptOutcome::Ready(source) => self.sink.append(source),
            AttemptOutcome::Failed(_) => (),
        }
    }

    /// The sink drained on its own: the queued source played to its end.
    pub fn playback_finished(&mut self)
        requires
            old(self).model().wf(),
        ensures
            final(self).model().wf(),
            final(self).model() == finished_step(old(self).model()),
    {
        self.sink.drain();
    }

    /// Whether an accepted play intent still has its attempt under way.
    /// No further intent is accepted until the attempt resolves.
    pub fn attempt_pending(&self) -> (r: bool)
        ensures
            r == self.model().attempt_pending,
    {
        self.attempt_in_flight
    }

    /// Whether the sink is empty, the one completion signal there is.
    pub fn sink_is_empty(&self) -> (r: bool)
        ensures
            r == !self.model().sink_occupied,
    {
        self.sink.is_empty()
    }

    /// The externally visible state.
    pub fn phase(&self) -> (p: ControllerPhase)
        ensures
            p == self.model().phase(),
    {
        if self.attempt_in_flight || !self.sink.is_empty() {
            ControllerPhase::Playing
        } else {
            ControllerPhase::Idle
        }
    }
}

} // verus!
