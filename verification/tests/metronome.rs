use metronome::countdown::{format_mins_and_secs, update_timer, Timer};
use metronome::engine::{Action, Message};
use metronome::scheduler::{beat_period, timer_plan, Period, TimerPlan};
use metronome::session::{Beat, MetronomeSettings, MetronomeState, SessionState, Subdivision};
use metronome::soundbank::SoundBank;

fn playing_session() -> SessionState {
    let mut s = SessionState::new(MetronomeSettings::default());
    let a = s.update(Message::Toggle);
    assert_eq!(a, Action::ScheduleImmediateBeat);
    s
}

#[test]
fn default_settings() {
    let flags = MetronomeSettings::default();
    assert_eq!(flags.value, 120);
    assert!(!flags.is_set_to_quack);
    assert!(!flags.is_timer_on);
    assert_eq!(flags.subdivision, Subdivision::Quarter);
    assert_eq!(flags.timer, Timer { mins: 2, secs: 30 });
    let s = SessionState::new(flags);
    assert_eq!(s.state, MetronomeState::Stopped);
    assert_eq!(s.value, 120);
}

#[test]
fn period_at_120_quarter_is_half_a_second() {
    let p = beat_period(120, Subdivision::Quarter);
    assert_eq!(p, Period { secs_num: 60, secs_den: 120 });
    assert_eq!(2 * p.secs_num, p.secs_den);
}

#[test]
fn period_at_120_eighth_is_a_quarter_second() {
    let p = beat_period(120, Subdivision::Eighth);
    assert_eq!(p, Period { secs_num: 60, secs_den: 240 });
    assert_eq!(4 * p.secs_num, p.secs_den);
}

#[test]
fn period_across_the_whole_range() {
    for tempo in 40..=200u32 {
        for sub in [Subdivision::Quarter, Subdivision::Eighth] {
            let factor: u32 = match sub {
                Subdivision::Quarter => 1,
                Subdivision::Eighth => 2,
            };
            let p = beat_period(tempo, sub);
            assert_eq!(p.secs_num, 60);
            assert_eq!(p.secs_den, tempo * factor);
        }
    }
}

#[test]
fn plan_is_idle_while_stopped() {
    let s = SessionState::new(MetronomeSettings::default());
    assert_eq!(timer_plan(&s), TimerPlan::Idle);
}

#[test]
fn plan_while_playing_carries_period_and_countdown_flag() {
    let mut s = playing_session();
    assert_eq!(
        timer_plan(&s),
        TimerPlan::Running {
            period: Period { secs_num: 60, secs_den: 120 },
            countdown_tick: false,
        }
    );
    s.update(Message::ToggleTimer(true));
    assert_eq!(
        timer_plan(&s),
        TimerPlan::Running {
            period: Period { secs_num: 60, secs_den: 120 },
            countdown_tick: true,
        }
    );
}

#[test]
fn no_beat_is_played_after_stop() {
    let mut s = playing_session();
    assert_eq!(s.update(Message::Beat), Action::PlayClip(Beat::Beat));
    assert_eq!(s.update(Message::Toggle), Action::Nothing);
    assert_eq!(s.state, MetronomeState::Stopped);
    // A firing that was already in flight when Stop was processed.
    assert_eq!(s.update(Message::Beat), Action::Nothing);
    assert_eq!(s.update(Message::Beat), Action::Nothing);
    assert_eq!(timer_plan(&s), TimerPlan::Idle);
}

#[test]
fn tempo_change_mid_play_changes_later_periods_only() {
    let mut s = playing_session();
    assert_eq!(s.update(Message::SlideChangeBPM(180)), Action::Nothing);
    assert_eq!(s.state, MetronomeState::Play);
    assert_eq!(
        timer_plan(&s),
        TimerPlan::Running {
            period: Period { secs_num: 60, secs_den: 180 },
            countdown_tick: false,
        }
    );
    // The next firing still plays; nothing was re-fired or dropped.
    assert_eq!(s.update(Message::Beat), Action::PlayClip(Beat::Beat));
}

#[test]
fn slider_value_out_of_range_is_rejected() {
    let mut s = playing_session();
    s.update(Message::SlideChangeBPM(39));
    assert_eq!(s.value, 120);
    s.update(Message::SlideChangeBPM(201));
    assert_eq!(s.value, 120);
    s.update(Message::SlideChangeBPM(40));
    assert_eq!(s.value, 40);
    s.update(Message::SlideChangeBPM(200));
    assert_eq!(s.value, 200);
}

#[test]
fn increment_clamps_at_200() {
    let mut s = playing_session();
    s.update(Message::SlideChangeBPM(200));
    s.update(Message::IncrementBPM);
    assert_eq!(s.value, 200);
    s.update(Message::IncrementBPM);
    assert_eq!(s.value, 200);
}

#[test]
fn decrement_clamps_at_40() {
    let mut s = playing_session();
    s.update(Message::SlideChangeBPM(40));
    s.update(Message::DecrementBPM);
    assert_eq!(s.value, 40);
    s.update(Message::DecrementBPM);
    assert_eq!(s.value, 40);
}

#[test]
fn increment_and_decrement_move_inside_the_range() {
    let mut s = playing_session();
    s.update(Message::IncrementBPM);
    assert_eq!(s.value, 121);
    s.update(Message::DecrementBPM);
    s.update(Message::DecrementBPM);
    assert_eq!(s.value, 119);
}

#[test]
fn countdown_from_five_seconds_reaches_zero_and_holds() {
    let mut s = playing_session();
    s.update(Message::ToggleTimer(true));
    s.timer = Timer { mins: 0, secs: 5 };
    for expected in [4u32, 3, 2, 1, 0] {
        assert_eq!(s.update(Message::Tick), Action::Nothing);
        assert_eq!(s.timer, Timer { mins: 0, secs: expected });
    }
    // Further ticks hold at 0:00: no wrap to 59:59, nothing negative.
    s.update(Message::Tick);
    s.update(Message::Tick);
    assert_eq!(s.timer, Timer { mins: 0, secs: 0 });
}

#[test]
fn countdown_borrows_from_the_minutes() {
    assert_eq!(update_timer(Timer { mins: 2, secs: 0 }), Timer { mins: 1, secs: 59 });
    assert_eq!(update_timer(Timer { mins: 2, secs: 30 }), Timer { mins: 2, secs: 29 });
    assert_eq!(update_timer(Timer { mins: 0, secs: 1 }), Timer { mins: 0, secs: 0 });
    assert_eq!(update_timer(Timer { mins: 0, secs: 0 }), Timer { mins: 0, secs: 0 });
}

#[test]
fn countdown_does_not_tick_unless_enabled_and_playing() {
    let mut s = playing_session();
    s.timer = Timer { mins: 0, secs: 5 };
    s.update(Message::Tick);
    assert_eq!(s.timer, Timer { mins: 0, secs: 5 });
    s.update(Message::ToggleTimer(true));
    s.update(Message::Toggle);
    s.update(Message::Tick);
    assert_eq!(s.timer, Timer { mins: 0, secs: 5 });
}

#[test]
fn quack_toggle_takes_effect_on_the_very_next_beat() {
    let mut s = playing_session();
    assert_eq!(s.update(Message::Beat), Action::PlayClip(Beat::Beat));
    s.update(Message::ToggleQuack(true));
    assert_eq!(s.update(Message::Beat), Action::PlayClip(Beat::Quack));
    s.update(Message::ToggleQuack(false));
    assert_eq!(s.update(Message::Beat), Action::PlayClip(Beat::Beat));
}

#[test]
fn subdivision_change_doubles_the_beat_rate() {
    let mut s = playing_session();
    s.update(Message::ChangeSubdivision(Subdivision::Eighth));
    assert_eq!(
        timer_plan(&s),
        TimerPlan::Running {
            period: Period { secs_num: 60, secs_den: 240 },
            countdown_tick: false,
        }
    );
}

#[test]
fn a_burst_of_beats_yields_one_play_each() {
    let mut s = playing_session();
    for _ in 0..16 {
        assert_eq!(s.update(Message::Beat), Action::PlayClip(Beat::Beat));
    }
}

#[test]
fn sound_bank_lookup_picks_the_right_clip() {
    let bank = SoundBank::new(String::from("click bytes"), String::from("quack bytes"));
    assert_eq!(bank.get(Beat::Beat), "click bytes");
    assert_eq!(bank.get(Beat::Quack), "quack bytes");
}

#[test]
fn countdown_display_pads_the_seconds() {
    assert_eq!(format_mins_and_secs(2, 30), "2:30");
    assert_eq!(format_mins_and_secs(0, 5), "0:05");
    assert_eq!(format_mins_and_secs(0, 0), "0:00");
    assert_eq!(format_mins_and_secs(10, 9), "10:09");
    assert_eq!(format_mins_and_secs(59, 59), "59:59");
    assert_eq!(format_mins_and_secs(100, 10), "100:10");
}
