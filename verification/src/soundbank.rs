//! The sound bank: the two decoded clips, keyed by beat kind. The clips
//! themselves are whatever replayable handle the audio layer hands in; the
//! bank only guarantees that the lookup is total and picks the right one.

use vstd::prelude::*;
use crate::session::Beat;

verus! {

/// The two memory-resident clips, loaded once at startup and shared
/// read-only for the life of the process.
pub struct SoundBank<C> {
    pub click: C,
    pub quack: C,
}

impl<C> SoundBank<C> {
    /// Build the bank from the two decoded clips.
    pub fn new(click: C, quack: C) -> (bank: SoundBank<C>)
        ensures
            bank == (SoundBank { click, quack }),
    {
        SoundBank { click, quack }
    }

    /// Look up the clip for a beat kind. Never suspends and never fails
    /// once the bank is loaded: a cheap handle to the shared buffer, the
    /// click for a plain beat and the quack for a quack beat.
    pub fn get(&self, kind: Beat) -> (clip: &C)
        ensures
            kind is Beat ==> clip == &self.click,
            kind is Quack ==> clip == &self.quack,
    {
        match kind {
            Beat::Beat => &self.click,
            Beat::Quack => &self.quack,
        }
    }
}

} // verus!
