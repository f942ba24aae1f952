//! The pane showing the playing track.
use vstd::prelude::*;

use crate::event::{Event, PlaybackOwner};
use crate::playback::queue::entry::TrackId;

verus! {

#[derive(Debug)]
pub struct TrackInformationPane {
    playing_track_id: Option<TrackId>,
}

impl View for TrackInformationPane {
    type V = Option<TrackId>;

    /// The track shown.
    closed spec fn view(&self) -> Option<TrackId> {
        self.playing_track_id
    }
}

impl TrackInformationPane {
    /// While the playback bar owns playback, shows the track that becomes
    /// active.
    pub fn on_event(&mut self, event: &Event, playback_owner: &PlaybackOwner)
        ensures
            final(self)@ == match (*playback_owner, *event) {
                (PlaybackOwner::PlaybackBar, Event::ActiveTrackChanged(track_id)) => track_id,
                _ => old(self)@,
            },
    {
        if let PlaybackOwner::TagTrackModal = playback_owner {
            return;
        }
        if let Event::ActiveTrackChanged(track_id) = event {
            self.playing_track_id = *track_id;
        }
    }

    /// The track shown.
    pub fn playing_track_id(&self) -> (track_id: Option<TrackId>)
        ensures
            track_id == self@,
    {
        self.playing_track_id
    }
}

impl Default for TrackInformationPane {
    fn default() -> (pane: Self)
        ensures
            pane@ is None,
    {
        TrackInformationPane { playing_track_id: None }
    }
}

} // verus!
