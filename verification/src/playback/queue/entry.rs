use vstd::prelude::*;

use crate::traits::Identifiable;

verus! {

/// Identifier of a track in the library.
pub type TrackId = i64;

/// Identifier granted to each queue entry upon creation.
pub type PlaybackQueueEntryId = u64;

/// An entry of the playback queue: a track together with who put it there.
#[derive(Debug, Clone, Copy, PartialEq, Eq, Hash, Structural)]
pub struct PlaybackQueueEntry {
    pub id: PlaybackQueueEntryId,
    pub track_id: TrackId,
    pub source: PlaybackQueueEntrySource,
}

/// Whether an entry was generated from the track pool or queued by the user.
#[derive(Debug, Clone, Copy, PartialEq, Eq, Hash, Structural)]
pub enum PlaybackQueueEntrySource {
    System,
    User,
}

impl PlaybackQueueEntry {
    pub fn system(id: PlaybackQueueEntryId, track_id: TrackId) -> (entry: Self)
        ensures
            entry == (PlaybackQueueEntry { id, track_id, source: PlaybackQueueEntrySource::System }),
    {
        Self { id, track_id, source: PlaybackQueueEntrySource::System }
    }

    pub fn user(id: PlaybackQueueEntryId, track_id: TrackId) -> (entry: Self)
        ensures
            entry == (PlaybackQueueEntry { id, track_id, source: PlaybackQueueEntrySource::User }),
    {
        Self { id, track_id, source: PlaybackQueueEntrySource::User }
    }

    /// Identifier reserved for the header row of the queue table; no entry
    /// created by the queue carries it.
    pub fn header_row_id() -> (id: PlaybackQueueEntryId)
        ensures
            id == u64::MAX,
    {
        u64::MAX
    }
}

impl Identifiable for PlaybackQueueEntry {
    type Identifier = u64;

    fn id(&self) -> (id: &u64)
        ensures
            *id == self.id,
    {
        &self.id
    }
}

} // verus!
