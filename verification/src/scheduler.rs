//! The beat scheduler: derive from the session state which periodic timers
//! must be live. The surrounding program re-evaluates this on every state
//! change, tears down stale timers and installs the fresh ones, and raises
//! `Message::Beat` or `Message::Tick` whenever one fires.

use vstd::prelude::*;
use crate::engine::emitted;
use crate::engine::step;
use crate::engine::Action;
use crate::engine::Message;
use crate::session::SessionState;
use crate::session::Subdivision;
use crate::session::MAX_BPM;
use crate::session::MIN_BPM;

verus! {

/// The time between consecutive beat events, as the exact fraction
/// `secs_num / secs_den` of a second. At 120 beats per minute on quarter
/// notes this is 60/120, half a second.
#[derive(Clone, Copy, PartialEq, Eq, Structural, Debug)]
pub struct Period {
    pub secs_num: u32,
    pub secs_den: u32,
}

/// The period the current tempo and subdivision call for: 60 seconds spread
/// over `tempo * factor` beat events.
pub open spec fn spec_beat_period(tempo: u32, sub: Subdivision) -> Period {
    Period { secs_num: 60, secs_den: (tempo * sub.spec_factor()) as u32 }
}

/// Compute the beat period for a tempo and subdivision: exactly
/// `60 / tempo / factor` seconds, held as the fraction `60 / (tempo * factor)`.
pub fn beat_period(tempo: u32, sub: Subdivision) -> (p: Period)
    requires
        MIN_BPM <= tempo <= MAX_BPM,
    ensures
        p == spec_beat_period(tempo, sub),
        p.secs_num == 60,
        p.secs_den == tempo * sub.spec_factor(),
        p.secs_den > 0,
{
    Period { secs_num: 60, secs_den: tempo * sub.factor() }
}

/// Which periodic timers must be live for a given session state.
#[derive(Clone, Copy, PartialEq, Eq, Structural, Debug)]
pub enum TimerPlan {
    /// Playback is stopped: no timer runs and nothing can fire.
    Idle,
    /// Playback is running: one beat timer at `period`, and a one-second
    /// countdown timer exactly when `countdown_tick` is set.
    Running { period: Period, countdown_tick: bool },
}

/// The timer plan a session state calls for.
pub open spec fn spec_timer_plan(s: SessionState) -> TimerPlan {
    if s.state is Stopped {
        TimerPlan::Idle
    } else {
        TimerPlan::Running {
            period: spec_beat_period(s.value, s.subdivision),
            countdown_tick: s.is_timer_on,
        }
    }
}

/// Derive the set of live timers from the session state. Re-evaluated as one
/// logical step on every state change, so a stale period never keeps a timer
/// of its own running beside the fresh one.
pub fn timer_plan(s: &SessionState) -> (p: TimerPlan)
    requires
        s.wf(),
    ensures
        p == spec_timer_plan(*s),
{
    match s.state {
        crate::session::MetronomeState::Stopped => TimerPlan::Idle,
        crate::session::MetronomeState::Play => TimerPlan::Running {
            period: beat_period(s.value, s.subdivision),
            countdown_tick: s.is_timer_on,
        },
    }
}

/// The period formula: for every tempo in bounds and either subdivision the
/// beat period is exactly `60 / tempo / factor` seconds with a factor of 1
/// for quarters and 2 for eighths, and it is never degenerate.
pub proof fn lemma_period_formula(tempo: u32, sub: Subdivision)
    requires
        MIN_BPM <= tempo <= MAX_BPM,
    ensures
        spec_beat_period(tempo, sub).secs_num == 60,
        spec_beat_period(tempo, sub).secs_den == tempo * sub.spec_factor(),
        sub.spec_factor() == 1 || sub.spec_factor() == 2,
        spec_beat_period(tempo, sub).secs_den > 0,
{
}

/// While playback is stopped the plan is idle: no beat timer exists that
/// could fire after the stop transition is processed.
pub proof fn lemma_idle_when_stopped(s: SessionState)
    requires
        s.state is Stopped,
    ensures
        spec_timer_plan(s) is Idle,
{
}

/// Changing the tempo mid-play re-derives the plan with the new period while
/// playback carries on: the change itself emits nothing (the in-flight beat
/// is neither re-fired nor dropped), and the very next beat firing still
/// plays a clip.
pub proof fn lemma_tempo_change_keeps_playing(s: SessionState, bpm: u32)
    requires
        s.wf(),
        s.state is Play,
        MIN_BPM <= bpm <= MAX_BPM,
    ensures
        step(s, Message::SlideChangeBPM(bpm)).state is Play,
        emitted(s, Message::SlideChangeBPM(bpm)) == Action::Nothing,
        spec_timer_plan(step(s, Message::SlideChangeBPM(bpm))) == (TimerPlan::Running {
            period: spec_beat_period(bpm, s.subdivision),
            countdown_tick: s.is_timer_on,
        }),
        emitted(step(s, Message::SlideChangeBPM(bpm)), Message::Beat) is PlayClip,
{
}

} // verus!
