//! Moving on once a track has finished.
use vstd::prelude::*;

use crate::constants::PLAYBACK_QUEUE_LENGTH;
use crate::event::PlaybackOwner;
use crate::playback::queue::entry::TrackId;
use crate::playback::queue::{PlaybackQueue, PlaybackRepeatMode, track_at};

verus! {

/// The track to play once the playing one has finished: the same one again
/// when repeating one track, else the next one of the queue, onto which the
/// queue moves.
pub fn play_next_track(queue: &mut PlaybackQueue) -> (track: Option<TrackId>)
    requires
        old(queue)@.has_id_room(PLAYBACK_QUEUE_LENGTH as nat),
        old(queue)@.cursor < usize::MAX,
    ensures
        old(queue)@.repeat_mode == PlaybackRepeatMode::RepeatOne ==> final(queue)@ == old(queue)@
            && track == track_at(old(queue)@.entries, old(queue)@.cursor as int),
        old(queue)@.repeat_mode != PlaybackRepeatMode::RepeatOne ==> old(queue)@.moved_next(
            final(queue)@,
            track,
        ),
        old(queue)@.ids_fresh() ==> final(queue)@.ids_fresh(),
        old(queue)@.cursor_valid() ==> final(queue)@.cursor_valid(),
{
    if queue.is_repeating_one() {
        queue.current()
    } else {
        queue.next()
    }
}

/// The track to play once the playing one has finished: under the playback
/// bar, the queue moves on as `play_next_track` says; under the tag tracks
/// modal, the playing track plays again.
pub fn handle_track_finished(
    queue: &mut PlaybackQueue,
    current_playback_owner: PlaybackOwner,
    current_playing_track_id: Option<TrackId>,
) -> (track: Option<TrackId>)
    requires
        current_playback_owner == PlaybackOwner::PlaybackBar ==> old(queue)@.has_id_room(
            PLAYBACK_QUEUE_LENGTH as nat,
        ) && old(queue)@.cursor < usize::MAX,
    ensures
        current_playback_owner == PlaybackOwner::TagTrackModal ==> final(queue)@ == old(queue)@
            && track == current_playing_track_id,
        current_playback_owner == PlaybackOwner::PlaybackBar ==> (old(queue)@.repeat_mode
            == PlaybackRepeatMode::RepeatOne ==> final(queue)@ == old(queue)@ && track == track_at(
            old(queue)@.entries,
            old(queue)@.cursor as int,
        )) && (old(queue)@.repeat_mode != PlaybackRepeatMode::RepeatOne ==> old(queue)@.moved_next(final(queue)@, track)),
{
    match current_playback_owner {
        PlaybackOwner::PlaybackBar => play_next_track(queue),
        PlaybackOwner::TagTrackModal => current_playing_track_id,
    }
}

} // verus!
