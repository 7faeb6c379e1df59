//! The tones that mark the events of a session. Playing them is left to
//! whoever drives the session; what is decided here is which tone is due.

use vstd::prelude::*;
use crate::app::AppState;
use crate::techniques::PhaseName;

verus! {

/// The audio cues.
#[derive(Debug, Clone, Copy, PartialEq, Eq, Structural)]
pub enum PhaseTone {
    Inhale,
    Hold,
    Exhale,
    HoldEmpty,
    Start,
    Complete,
}

impl PhaseTone {
    /// The pitch of each cue in millionths of a hertz: A4 to breathe in,
    /// C5 to hold, F4 to breathe out, D4 to rest, C5 at the start and E5
    /// at the end.
    pub open spec fn pitch(self) -> i64 {
        match self {
            PhaseTone::Inhale => 440_000_000,
            PhaseTone::Hold => 523_250_000,
            PhaseTone::Exhale => 349_230_000,
            PhaseTone::HoldEmpty => 293_660_000,
            PhaseTone::Start => 523_250_000,
            PhaseTone::Complete => 659_250_000,
        }
    }

    /// How long each cue sounds, in milliseconds.
    pub open spec fn length(self) -> u64 {
        match self {
            PhaseTone::Inhale => 150,
            PhaseTone::Hold => 100,
            PhaseTone::Exhale => 150,
            PhaseTone::HoldEmpty => 100,
            PhaseTone::Start => 200,
            PhaseTone::Complete => 300,
        }
    }

    /// The cue that belongs to a phase.
    pub open spec fn of_phase(phase: PhaseName) -> PhaseTone {
        match phase {
            PhaseName::Inhale => PhaseTone::Inhale,
            PhaseName::Hold => PhaseTone::Hold,
            PhaseName::Exhale => PhaseTone::Exhale,
            PhaseName::HoldAfterExhale => PhaseTone::HoldEmpty,
        }
    }

    /// The pitch of the cue, in millionths of a hertz.
    pub fn frequency(&self) -> (hertz: i64)
        ensures
            hertz == self.pitch(),
    {
        match self {
            PhaseTone::Inhale => 440_000_000,
            PhaseTone::Hold => 523_250_000,
            PhaseTone::Exhale => 349_230_000,
            PhaseTone::HoldEmpty => 293_660_000,
            PhaseTone::Start => 523_250_000,
            PhaseTone::Complete => 659_250_000,
        }
    }

    /// How long the cue sounds, in milliseconds.
    pub fn duration_ms(&self) -> (millis: u64)
        ensures
            millis == self.length(),
    {
        match self {
            PhaseTone::Inhale => 150,
            PhaseTone::Hold => 100,
            PhaseTone::Exhale => 150,
            PhaseTone::HoldEmpty => 100,
            PhaseTone::Start => 200,
            PhaseTone::Complete => 300,
        }
    }

    /// The cue that belongs to a phase.
    pub fn for_phase(phase: PhaseName) -> (tone: PhaseTone)
        ensures
            tone == Self::of_phase(phase),
    {
        match phase {
            PhaseName::Inhale => PhaseTone::Inhale,
            PhaseName::Hold => PhaseTone::Hold,
            PhaseName::Exhale => PhaseTone::Exhale,
            PhaseName::HoldAfterExhale => PhaseTone::HoldEmpty,
        }
    }
}

/// The cue that a tick calls for, if any: the cue of the new phase where
/// the session runs and the phase index has changed, the closing cue
/// where the tick has completed the session. None while the sound is off.
pub open spec fn cue_after_tick(
    audio_enabled: bool,
    state_before: AppState,
    index_before: usize,
    state: AppState,
    index: usize,
    phase: PhaseName,
) -> Option<PhaseTone> {
    if !audio_enabled {
        None
    } else if state == AppState::Breathing && index != index_before {
        Some(PhaseTone::of_phase(phase))
    } else if state_before == AppState::Breathing && state == AppState::Complete {
        Some(PhaseTone::Complete)
    } else {
        None
    }
}

/// Decides which cue to play after a tick, from the state and the phase
/// index before the tick and after it. `phase` is the phase that the
/// session is in after the tick.
pub fn tone_after_tick(
    audio_enabled: bool,
    state_before: AppState,
    index_before: usize,
    state: AppState,
    index: usize,
    phase: PhaseName,
) -> (tone: Option<PhaseTone>)
    ensures
        tone == cue_after_tick(audio_enabled, state_before, index_before, state, index, phase),
{
    if !audio_enabled {
        None
    } else if state == AppState::Breathing && index != index_before {
        Some(PhaseTone::for_phase(phase))
    } else if state_before == AppState::Breathing && state == AppState::Complete {
        Some(PhaseTone::Complete)
    } else {
        None
    }
}

} // verus!
