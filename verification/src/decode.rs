//! Format probe and frame sequencing of the decode engine.
//!
//! The engine is built once, by probing the first bytes of the stream for
//! the one supported container; an unrecognized header is a probe fault and
//! the engine never exists. A built engine then orders the decoder's pulls
//! into a lazy, finite, non-restartable frame sequence: frames pass through
//! while the stream is healthy, and the first corrupt frame or the end of
//! the input ends the sequence for good, without failing the process.

use vstd::prelude::*;

use crate::errors::PlaybackError;

verus! {

/// The first bytes open an ID3v2 tag, the common prefix of an MPEG audio
/// file carrying its metadata.
pub open spec fn id3_prefix(h: Seq<u8>) -> bool {
    h.len() >= 3 && h[0] == 0x49u8 && h[1] == 0x44u8 && h[2] == 0x33u8
}

/// The first bytes hold an MPEG audio frame sync pattern: eleven set bits.
pub open spec fn frame_sync_prefix(h: Seq<u8>) -> bool {
    h.len() >= 2 && h[0] == 0xffu8 && (h[1] & 0xe0u8) == 0xe0u8
}

/// The header is recognized as the one supported container: MPEG audio,
/// either bare frames or behind an ID3v2 tag.
pub open spec fn header_recognized(h: Seq<u8>) -> bool {
    id3_prefix(h) || frame_sync_prefix(h)
}

/// One pull from the underlying decoder, as the engine sees it.
pub enum DecodeStep {
    /// One fully decoded block of PCM samples.
    Frame(Vec<i16>),
    /// The decoder met corrupt data where a frame should start.
    Corrupt,
    /// The byte source is exhausted.
    EndOfInput,
}

/// Where the engine stands in its frame sequence.
#[derive(Clone, Copy, Debug, PartialEq, Eq, Structural)]
pub enum EnginePhase {
    /// Frames are still being handed on.
    Streaming,
    /// The sequence is over: the input ended or turned corrupt.
    Ended,
}

/// The phase an engine in `phase` moves to on one decoder pull `step`, and
/// the frame it hands on, if any. An ended engine stays ended and hands on
/// nothing; a streaming engine passes a frame through and ends at the first
/// corrupt pull or at the end of the input.
pub open spec fn engine_step(phase: EnginePhase, step: DecodeStep) -> (EnginePhase, Option<
    Seq<i16>,
>) {
    match phase {
        EnginePhase::Ended => (EnginePhase::Ended, None),
        EnginePhase::Streaming => match step {
            DecodeStep::Frame(f) => (EnginePhase::Streaming, Some(f@)),
            DecodeStep::Corrupt => (EnginePhase::Ended, None),
            DecodeStep::EndOfInput => (EnginePhase::Ended, None),
        },
    }
}

/// The view of a frame an engine handed on.
pub open spec fn frame_view(frame: Option<Vec<i16>>) -> Option<Seq<i16>> {
    match frame {
        Some(f) => Some(f@),
        None => None,
    }
}

/// Once the sequence has ended it is over for good: no pull moves the
/// engine away from its end, and none produces another frame.
pub proof fn lemma_ended_is_terminal(step: DecodeStep)
    ensures
        engine_step(EnginePhase::Ended, step).0 is Ended,
        engine_step(EnginePhase::Ended, step).1 is None,
{
}

/// A corrupt pull or the end of the input ends the sequence early, with no
/// frame and without a process fault; whatever was handed on before stays
/// handed on.
pub proof fn lemma_fault_ends_sequence(phase: EnginePhase)
    ensures
        engine_step(phase, DecodeStep::Corrupt).0 is Ended,
        engine_step(phase, DecodeStep::Corrupt).1 is None,
        engine_step(phase, DecodeStep::EndOfInput).0 is Ended,
        engine_step(phase, DecodeStep::EndOfInput).1 is None,
{
}

/// Pull-based source of decoded PCM frames over one probed byte stream.
pub struct DecodeEngine {
    phase: EnginePhase,
}

impl DecodeEngine {
    /// Where the engine stands in its frame sequence.
    pub closed spec fn phase(self) -> EnginePhase {
        self.phase
    }

    /// Probe the first bytes of the stream once and build the engine.
    /// Exactly the headers of the supported container are accepted; any
    /// other byte source is refused with the probe fault and no engine.
    pub fn probe(header: &Vec<u8>) -> (r: Result<DecodeEngine, PlaybackError>)
        ensures
            r is Ok <==> header_recognized(header@),
            r matches Ok(e) ==> e.phase() is Streaming,
            r matches Err(e) ==> e is Probe,
    {
        if header.len() >= 3 && header[0] == 0x49u8 && header[1] == 0x44u8 && header[2] == 0x33u8
        {
            Ok(DecodeEngine { phase: EnginePhase::Streaming })
        } else if header.len() >= 2 && header[0] == 0xffu8 && (header[1] & 0xe0u8) == 0xe0u8 {
            Ok(DecodeEngine { phase: EnginePhase::Streaming })
        } else {
            Err(PlaybackError::Probe)
        }
    }

    /// Feed one decoder pull to the engine and take the frame it hands on,
    /// exactly as [`engine_step`] orders the sequence.
    pub fn advance(&mut self, step: DecodeStep) -> (frame: Option<Vec<i16>>)
        ensures
            final(self).phase() == engine_step(old(self).phase(), step).0,
            frame_view(frame) == engine_step(old(self).phase(), step).1,
    {
        match self.phase {
            EnginePhase::Ended => None,
            EnginePhase::Streaming => match step {
                DecodeStep::Frame(f) => Some(f),
                DecodeStep::Corrupt => {
                    self.phase = EnginePhase::Ended;
                    None
                },
                DecodeStep::EndOfInput => {
                    self.phase = EnginePhase::Ended;
                    None
                },
            },
        }
    }

    /// Whether the frame sequence is over.
    pub fn is_ended(&self) -> (r: bool)
        ensures
            r == (self.phase() is Ended),
    {
        match self.phase {
            EnginePhase::Ended => true,
            EnginePhase::Streaming => false,
        }
    }
}

} // verus!
