//! The control state machine: one step per message from the presentation
//! layer or from a timer firing. Each step updates the session state and
//! says what the surrounding program must do next, so that every decision
//! is made here and the outside only carries it out.

use vstd::prelude::*;
use crate::countdown::spec_update_timer;
use crate::countdown::update_timer;
use crate::session::Beat;
use crate::session::MetronomeState;
use crate::session::SessionState;
use crate::session::Subdivision;
use crate::session::MAX_BPM;
use crate::session::MIN_BPM;

verus! {

/// The control events: what the presentation layer raises, plus the two
/// internal periodic firings (`Beat` from the beat timer, `Tick` from the
/// one-second countdown timer).
#[derive(Clone, Copy, PartialEq, Eq, Structural, Debug)]
pub enum Message {
    Toggle,
    Beat,
    IncrementBPM,
    DecrementBPM,
    SlideChangeBPM(u32),
    ChangeSubdivision(Subdivision),
    ToggleQuack(bool),
    Tick,
    ToggleTimer(bool),
}

/// What the surrounding program must do after a step: nothing, enqueue one
/// beat event of the given kind to the playback worker, or raise `Beat` at
/// once so the first beat of a fresh run does not wait a full period.
#[derive(Clone, Copy, PartialEq, Eq, Structural, Debug)]
pub enum Action {
    Nothing,
    PlayClip(Beat),
    ScheduleImmediateBeat,
}

/// The session state after one message is processed.
pub open spec fn step(s: SessionState, m: Message) -> SessionState {
    match m {
        Message::Toggle => SessionState {
            state: if s.state is Stopped {
                MetronomeState::Play
            } else {
                MetronomeState::Stopped
            },
            ..s
        },
        Message::Beat => s,
        Message::IncrementBPM => SessionState {
            value: if s.value < MAX_BPM {
                (s.value + 1) as u32
            } else {
                s.value
            },
            ..s
        },
        Message::DecrementBPM => SessionState {
            value: if s.value > MIN_BPM {
                (s.value - 1) as u32
            } else {
                s.value
            },
            ..s
        },
        Message::SlideChangeBPM(bpm) => SessionState {
            value: if MIN_BPM <= bpm <= MAX_BPM {
                bpm
            } else {
                s.value
            },
            ..s
        },
        Message::ChangeSubdivision(sub) => SessionState { subdivision: sub, ..s },
        Message::ToggleQuack(quack) => SessionState { is_set_to_quack: quack, ..s },
        Message::Tick => SessionState {
            timer: if s.state is Play && s.is_timer_on {
                spec_update_timer(s.timer)
            } else {
                s.timer
            },
            ..s
        },
        Message::ToggleTimer(on) => SessionState { is_timer_on: on, ..s },
    }
}

/// The action a step hands back: a beat event only for a `Beat` firing that
/// lands while playing, with the clip kind read at that very moment; an
/// immediate first beat on the transition into playing; nothing otherwise.
pub open spec fn emitted(s: SessionState, m: Message) -> Action {
    match m {
        Message::Toggle => if s.state is Stopped {
            Action::ScheduleImmediateBeat
        } else {
            Action::Nothing
        },
        Message::Beat => if s.state is Play {
            Action::PlayClip(if s.is_set_to_quack {
                Beat::Quack
            } else {
                Beat::Beat
            })
        } else {
            Action::Nothing
        },
        _ => Action::Nothing,
    }
}

impl SessionState {
    /// Process one control message: mutate the session as `step` says and
    /// return the action that `emitted` says, keeping the session invariant.
    pub fn update(&mut self, message: Message) -> (a: Action)
        ensures
            *final(self) == step(*old(self), message),
            a == emitted(*old(self), message),
            old(self).wf() ==> final(self).wf(),
    {
        match message {
            Message::Toggle => {
                if self.state == MetronomeState::Stopped {
                    self.state = MetronomeState::Play;
                    Action::ScheduleImmediateBeat
                } else {
                    self.state = MetronomeState::Stopped;
                    Action::Nothing
                }
            }
            Message::Beat => {
                if self.state == MetronomeState::Play {
                    if self.is_set_to_quack {
                        Action::PlayClip(Beat::Quack)
                    } else {
                        Action::PlayClip(Beat::Beat)
                    }
                } else {
                    Action::Nothing
                }
            }
            Message::IncrementBPM => {
                if self.value < MAX_BPM {
                    self.value = self.value + 1;
                }
                Action::Nothing
            }
            Message::DecrementBPM => {
                if self.value > MIN_BPM {
                    self.value = self.value - 1;
                }
                Action::Nothing
            }
            Message::SlideChangeBPM(bpm) => {
                if MIN_BPM <= bpm && bpm <= MAX_BPM {
                    self.value = bpm;
                }
                Action::Nothing
            }
            Message::ChangeSubdivision(sub) => {
                self.subdivision = sub;
                Action::Nothing
            }
            Message::ToggleQuack(quack) => {
                self.is_set_to_quack = quack;
                Action::Nothing
            }
            Message::Tick => {
                if self.state == MetronomeState::Play && self.is_timer_on {
                    self.timer = update_timer(self.timer);
                }
                Action::Nothing
            }
            Message::ToggleTimer(on) => {
                self.is_timer_on = on;
                Action::Nothing
            }
        }
    }
}

/// Every message keeps the session invariant: the tempo never leaves
/// `[MIN_BPM, MAX_BPM]` and the countdown never leaves its form.
pub proof fn lemma_wf_preserved(s: SessionState, m: Message)
    requires
        s.wf(),
    ensures
        step(s, m).wf(),
{
}

/// At the top of the range an increment holds the tempo at `MAX_BPM`; at the
/// bottom a decrement holds it at `MIN_BPM`: the bounds clamp, they do not
/// overflow or underflow.
pub proof fn lemma_tempo_clamps_at_bounds(s: SessionState)
    ensures
        s.value == MAX_BPM ==> step(s, Message::IncrementBPM).value == MAX_BPM,
        s.value == MIN_BPM ==> step(s, Message::DecrementBPM).value == MIN_BPM,
{
}

/// A beat firing that lands after playback stopped plays nothing, even if it
/// was already in flight when the stop was processed.
pub proof fn lemma_no_beat_while_stopped(s: SessionState)
    requires
        s.state is Stopped,
    ensures
        emitted(s, Message::Beat) == Action::Nothing,
{
}

/// Stopping playback emits nothing further; starting it emits an immediate
/// first beat so the performer does not wait a full period.
pub proof fn lemma_toggle_transitions(s: SessionState)
    ensures
        s.state is Play ==> step(s, Message::Toggle).state is Stopped,
        s.state is Play ==> emitted(s, Message::Toggle) == Action::Nothing,
        s.state is Stopped ==> step(s, Message::Toggle).state is Play,
        s.state is Stopped ==> emitted(s, Message::Toggle) == Action::ScheduleImmediateBeat,
{
}

/// The beat right after a quack-mode toggle already plays the new clip kind,
/// while a beat fired before the toggle plays the kind that was set at its
/// own fire time.
pub proof fn lemma_quack_toggle_takes_next_beat(s: SessionState, quack: bool)
    requires
        s.state is Play,
    ensures
        emitted(s, Message::Beat) == Action::PlayClip(if s.is_set_to_quack {
            Beat::Quack
        } else {
            Beat::Beat
        }),
        step(s, Message::ToggleQuack(quack)).state is Play,
        emitted(step(s, Message::ToggleQuack(quack)), Message::Beat) == Action::PlayClip(
            if quack {
                Beat::Quack
            } else {
                Beat::Beat
            },
        ),
{
}

/// The session state after a whole sequence of messages, first one first.
pub open spec fn run(s: SessionState, msgs: Seq<Message>) -> SessionState
    decreases msgs.len(),
{
    if msgs.len() == 0 {
        s
    } else {
        run(step(s, msgs[0]), msgs.drop_first())
    }
}

/// Running a prefix of one more message is one step on the shorter prefix.
proof fn lemma_run_unfold(s: SessionState, msgs: Seq<Message>, i: int)
    requires
        1 <= i <= msgs.len(),
    ensures
        run(s, msgs.take(i)) == run(step(s, msgs[0]), msgs.drop_first().take(i - 1)),
{
    assert(msgs.take(i).drop_first() =~= msgs.drop_first().take(i - 1));
    assert(msgs.take(i)[0] == msgs[0]);
}

/// A burst of beat firings while playing produces one play action for each
/// firing, in order, with none dropped and the session left unchanged: the
/// engine never serializes or coalesces beats. (Whether the clips then sound
/// at the same time is the audio device's side, outside this library.)
pub proof fn lemma_beat_burst_plays_each(s: SessionState, msgs: Seq<Message>)
    requires
        s.state is Play,
        forall|i: int| 0 <= i < msgs.len() ==> msgs[i] == Message::Beat,
    ensures
        run(s, msgs) == s,
        forall|i: int|
            0 <= i < msgs.len() ==> emitted(run(s, msgs.take(i)), msgs[i]) == Action::PlayClip(
                if s.is_set_to_quack {
                    Beat::Quack
                } else {
                    Beat::Beat
                },
            ),
    decreases msgs.len(),
{
    if msgs.len() > 0 {
        assert(step(s, msgs[0]) == s);
        lemma_beat_burst_plays_each(s, msgs.drop_first());
        assert(run(s, msgs) == run(s, msgs.drop_first()));
        assert forall|i: int|
            0 <= i < msgs.len() implies emitted(run(s, msgs.take(i)), msgs[i]) == Action::PlayClip(
            if s.is_set_to_quack {
                Beat::Quack
            } else {
                Beat::Beat
            },
        ) by {
            if i == 0 {
                assert(msgs.take(0) =~= Seq::<Message>::empty());
                assert(run(s, msgs.take(0)) == s);
            } else {
                lemma_run_unfold(s, msgs, i);
                assert(msgs.drop_first()[i - 1] == msgs[i]);
            }
        }
    }
}

/// Once playback is stopped, no later message short of another toggle starts
/// it again, and no message in between -- a pending beat firing included --
/// ever produces a play action.
pub proof fn lemma_stopped_stays_silent(s: SessionState, msgs: Seq<Message>)
    requires
        s.state is Stopped,
        forall|i: int| 0 <= i < msgs.len() ==> msgs[i] != Message::Toggle,
    ensures
        run(s, msgs).state is Stopped,
        forall|i: int|
            0 <= i < msgs.len() ==> !(emitted(run(s, msgs.take(i)), msgs[i]) is PlayClip),
    decreases msgs.len(),
{
    if msgs.len() > 0 {
        let s1 = step(s, msgs[0]);
        assert(s1.state is Stopped);
        lemma_stopped_stays_silent(s1, msgs.drop_first());
        assert(run(s, msgs) == run(s1, msgs.drop_first()));
        assert forall|i: int|
            0 <= i < msgs.len() implies !(emitted(run(s, msgs.take(i)), msgs[i]) is PlayClip) by {
            if i == 0 {
                assert(msgs.take(0) =~= Seq::<Message>::empty());
                assert(run(s, msgs.take(0)) == s);
            } else {
                lemma_run_unfold(s, msgs, i);
                assert(msgs.drop_first()[i - 1] == msgs[i]);
            }
        }
    }
}

} // verus!
