//! Core of a practice metronome: the beat-timing and audio-dispatch engine.
//!
//! The library turns a tempo setting into a stream of scheduled beat events.
//! It holds the session state (tempo, subdivision, play/stop, quack mode,
//! countdown), the state machine that reacts to control messages, the
//! derivation of the active timer set from the session state, and the sound
//! bank lookup. The surrounding program supplies the actual clocks, the
//! audio output device and the user interface; those only feed messages in
//! and carry actions out.

pub mod countdown;
pub mod engine;
pub mod scheduler;
pub mod session;
pub mod soundbank;
