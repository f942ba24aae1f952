use vstd::prelude::*;

verus! {

/// Whether the audio output is playing or stopped.
#[derive(Debug, Clone, Copy, PartialEq, Eq, Structural)]
pub enum PlaybackControllerStatus {
    Playing,
    Stopped,
}

} // verus!
