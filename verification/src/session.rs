//! The session state: tempo, subdivision, play/stop, quack mode and the
//! countdown clock. It is owned by the control surface and read by the
//! scheduler each period.

use vstd::prelude::*;
use crate::countdown::Timer;

verus! {

/// Lowest tempo the instrument accepts, in beats per minute.
pub const MIN_BPM: u32 = 40;

/// Highest tempo the instrument accepts, in beats per minute.
pub const MAX_BPM: u32 = 200;

/// Note subdivision: how many beat events fire per quarter-note pulse.
#[derive(Clone, Copy, PartialEq, Eq, Structural, Debug)]
pub enum Subdivision {
    Quarter,
    Eighth,
}

impl Subdivision {
    /// Multiplier on beat frequency relative to the quarter-note pulse.
    pub open spec fn spec_factor(self) -> u32 {
        match self {
            Subdivision::Quarter => 1,
            Subdivision::Eighth => 2,
        }
    }

    /// Multiplier on beat frequency relative to the quarter-note pulse:
    /// one beat event per pulse for quarters, two for eighths.
    pub fn factor(self) -> (f: u32)
        ensures
            f == self.spec_factor(),
            f == 1 || f == 2,
    {
        match self {
            Subdivision::Quarter => 1,
            Subdivision::Eighth => 2,
        }
    }
}

/// Whether the scheduler is running at all.
#[derive(Clone, Copy, PartialEq, Eq, Structural, Debug)]
pub enum MetronomeState {
    Stopped,
    Play,
}

/// The kind of one beat event: the plain click or the quack, chosen at the
/// moment the beat fires.
#[derive(Clone, Copy, PartialEq, Eq, Structural, Debug)]
pub enum Beat {
    Beat,
    Quack,
}

/// Startup configuration for a session.
#[derive(Clone, Copy, PartialEq, Eq, Structural, Debug)]
pub struct MetronomeSettings {
    pub value: u32,
    pub is_set_to_quack: bool,
    pub is_timer_on: bool,
    pub subdivision: Subdivision,
    pub timer: Timer,
}

impl MetronomeSettings {
    /// The configuration is well formed when the tempo is in bounds and the
    /// countdown's seconds are a remainder below one minute.
    pub open spec fn wf(self) -> bool {
        &&& MIN_BPM <= self.value <= MAX_BPM
        &&& self.timer.wf()
    }
}

impl Default for MetronomeSettings {
    /// Out of the box: 120 beats per minute, quarter notes, click sound,
    /// countdown off and wound to 2:30.
    fn default() -> (s: MetronomeSettings)
        ensures
            s == (MetronomeSettings {
                value: 120,
                is_set_to_quack: false,
                is_timer_on: false,
                subdivision: Subdivision::Quarter,
                timer: Timer { mins: 2, secs: 30 },
            }),
            s.wf(),
    {
        MetronomeSettings {
            value: 120,
            is_set_to_quack: false,
            is_timer_on: false,
            subdivision: Subdivision::Quarter,
            timer: Timer::default(),
        }
    }
}

/// Everything the scheduler reads and the control surface mutates.
#[derive(Clone, Copy, PartialEq, Eq, Structural, Debug)]
pub struct SessionState {
    /// Tempo in beats per minute; kept within `[MIN_BPM, MAX_BPM]`.
    pub value: u32,
    /// Whether playback is running.
    pub state: MetronomeState,
    /// Current note subdivision; always set while scheduling.
    pub subdivision: Subdivision,
    /// When set, beats play the quack clip instead of the click.
    pub is_set_to_quack: bool,
    /// When set (and playing), the countdown ticks once per second.
    pub is_timer_on: bool,
    /// The countdown clock.
    pub timer: Timer,
}

impl SessionState {
    /// The session invariant: tempo within bounds, countdown well formed.
    pub open spec fn wf(self) -> bool {
        &&& MIN_BPM <= self.value <= MAX_BPM
        &&& self.timer.wf()
    }

    /// A fresh session takes its settings from the startup configuration and
    /// begins stopped.
    pub fn new(flags: MetronomeSettings) -> (s: SessionState)
        requires
            flags.wf(),
        ensures
            s == (SessionState {
                value: flags.value,
                state: MetronomeState::Stopped,
                subdivision: flags.subdivision,
                is_set_to_quack: flags.is_set_to_quack,
                is_timer_on: flags.is_timer_on,
                timer: flags.timer,
            }),
            s.wf(),
    {
        SessionState {
            value: flags.value,
            state: MetronomeState::Stopped,
            subdivision: flags.subdivision,
            is_set_to_quack: flags.is_set_to_quack,
            is_timer_on: flags.is_timer_on,
            timer: flags.timer,
        }
    }
}

} // verus!
