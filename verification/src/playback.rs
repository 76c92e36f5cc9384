//! Playback state of the wallpaper host.

use vstd::prelude::*;

verus! {

/// The state of the render-owner thread's playback machine.
///
/// Created `Idle` at process start and mutated only by the owner thread
/// inside command handlers; there is no terminal state while the process
/// runs.
#[derive(Debug, Clone, Copy, PartialEq, Eq, Structural)]
pub enum PlaybackState {
    Idle,
    Playing,
    Paused,
}

impl PlaybackState {
    /// The lowercase label reported through the `State` property of the
    /// remote control surface.
    pub open spec fn spec_str(self) -> Seq<char> {
        match self {
            PlaybackState::Idle => "idle"@,
            PlaybackState::Playing => "playing"@,
            PlaybackState::Paused => "paused"@,
        }
    }

    pub fn as_str(&self) -> (r: &'static str)
        ensures
            r@ == self.spec_str(),
    {
        match self {
            PlaybackState::Idle => "idle",
            PlaybackState::Playing => "playing",
            PlaybackState::Paused => "paused",
        }
    }
}

} // verus!
