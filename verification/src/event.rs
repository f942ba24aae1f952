//! Events that the application broadcasts to its components.
use vstd::prelude::*;

use crate::playback::queue::entry::{PlaybackQueueEntry, TrackId};

verus! {

/// Something that happened to playback or the queue.
#[derive(Debug)]
pub enum Event {
    /// Playing a track was attempted.
    AttemptedPlayingTrack,
    /// Playing a track from the given frame was attempted.
    AttemptedPlayingTrackAtDuration(u64),
    /// The track being played changed.
    ActiveTrackChanged(Option<TrackId>),
    StartedPlayback,
    StoppedPlayback,
    EndOfTrack,
    /// The entries of the playback queue changed.
    QueueChanged(Vec<PlaybackQueueEntry>),
    /// Playback moved on; the new position goes along with the event.
    PlaybackProgressed,
}

/// The component that drives playback.
#[derive(Debug, Clone, Copy, PartialEq, Eq, Structural)]
pub enum PlaybackOwner {
    PlaybackBar,
    TagTrackModal,
}

/// What a component does with its playback position upon an event.
#[derive(Debug, Clone, Copy, PartialEq, Eq, Structural)]
pub enum PositionUpdate {
    /// The position stays as it is.
    Keep,
    /// The position goes back to the start of the track.
    Reset,
    /// The position becomes the one carried by the event.
    Follow,
}

} // verus!
