//! What the components ask of the application once they have handled a message.
use vstd::prelude::*;

use crate::constants::PLAYBACK_QUEUE_LENGTH;
use crate::playback::controller::PlaybackControllerStatus;
use crate::playback::queue::entry::{
    PlaybackQueueEntry, PlaybackQueueEntryId, PlaybackQueueEntrySource, TrackId,
};
use crate::playback::queue::laws::{lemma_user_run_bound, lemma_user_run_insert};
use crate::playback::queue::{PlaybackQueue, PlaybackQueueOrder, PlaybackQueueView, entry_index};
use crate::search::models::SearchConditionGroup;
use crate::event::PlaybackOwner;
use crate::tag::index::TrackTagIndex;
use crate::tag::models::{TagGroupId, TagId};
use crate::ui::components::playback_bar::{PlaybackBar, PlaybackBarStatus};
use crate::ui::modals::{ModalController, opened_manage_tags, opened_tag_tracks};
use crate::ui::modals::AppModal;

verus! {

/// A request from a component to the application.
#[derive(Debug)]
pub enum Outcome {
    Playback(PlaybackOutcome),
    Modal(ModalOutcome),
    Tag(TagOutcome),
}

/// A request to open or close a modal.
#[derive(Debug)]
pub enum ModalOutcome {
    CloseModal,
    OpenTagTracksModal(Vec<TrackId>),
    OpenManageTagsModal,
}

/// A request concerning playback or the playback queue.
#[derive(Debug)]
pub enum PlaybackOutcome {
    Resume,
    Pause,
    Stop,
    Play(TrackId),
    StartQueue(TrackId),
    Seek { timestamp: u64, post_seek_status: Option<PlaybackControllerStatus> },
    PlayNext,
    PlayPrevious,
    PlayQueueEntry(PlaybackQueueEntryId),
    CycleRepeatMode,
    CycleOrder,
    QueueNext(Vec<TrackId>),
    SetVolumePercentage(u8),
}

/// A request concerning tags.
#[derive(Debug)]
pub enum TagOutcome {
    ToggleTag(TrackId, TagId),
    SaveTags,
    AddNewTag(TagGroupId, String),
    AddNewTagGroup(String),
    RemoveTagGroup(TagGroupId),
    RemoveTag(TagId),
}

/// A request to change the list of displayed tracks.
#[derive(Debug)]
pub enum TrackListOutcome {
    DisplayMainLibraryTrackList,
    DisplayTagTrackList(TagId),
    AdvancedSearch(SearchConditionGroup),
}

/// What is left for the audio controller to do once a playback outcome has
/// been applied to the queue.
#[derive(Debug, Clone, Copy, PartialEq, Eq, Structural)]
pub enum PlaybackAction {
    Nothing,
    Resume,
    Stop,
    Pause,
    Seek { timestamp: u64, post_seek_status: Option<PlaybackControllerStatus> },
    Play(TrackId),
    /// Play the track; once it plays, start the queue from it.
    PlayAndStartQueue(TrackId),
    /// Play the track from the given frame on.
    PlayAt { track_id: TrackId, timestamp: u64 },
    SetVolumePercentage(u8),
}

/// The track that `action` plays, if it plays one.
pub open spec fn played_track(action: PlaybackAction) -> Option<TrackId> {
    match action {
        PlaybackAction::Play(track_id) => Some(track_id),
        _ => None,
    }
}

/// `action` plays a track or does nothing.
pub open spec fn plays_or_nothing(action: PlaybackAction) -> bool {
    match action {
        PlaybackAction::Play(_) | PlaybackAction::Nothing => true,
        _ => false,
    }
}

/// Queue and playing track after queueing `track_ids` one after the other to
/// play next: into an empty queue a track starts the queue over `pool` and
/// becomes the playing track.
pub open spec fn queued_next(
    queue: PlaybackQueueView,
    pool: Seq<TrackId>,
    playing: Option<TrackId>,
    track_ids: Seq<TrackId>,
) -> (PlaybackQueueView, Option<TrackId>)
    decreases track_ids.len(),
{
    if track_ids.len() == 0 {
        (queue, playing)
    } else {
        let (before, playing_before) = queued_next(queue, pool, playing, track_ids.drop_last());
        let track_id = track_ids.last();
        if before.entries.len() == 0 {
            (before.started(pool, Some(track_id)), Some(track_id))
        } else {
            (before.inserted(before.next_insert_index(), track_id), playing_before)
        }
    }
}

/// Queueing tracks grants one identifier per track and keeps the queue valid.
proof fn lemma_queued_next(
    queue: PlaybackQueueView,
    pool: Seq<TrackId>,
    playing: Option<TrackId>,
    track_ids: Seq<TrackId>,
)
    requires
        queue.cursor_valid(),
        queue.has_id_room(track_ids.len()),
    ensures
        queued_next(queue, pool, playing, track_ids).0.next_id == queue.next_id + track_ids.len(),
        queued_next(queue, pool, playing, track_ids).0.cursor <= queue.cursor,
        queued_next(queue, pool, playing, track_ids).0.cursor_valid(),
        queue.ids_fresh() ==> queued_next(queue, pool, playing, track_ids).0.ids_fresh(),
    decreases track_ids.len(),
{
    if track_ids.len() > 0 {
        lemma_queued_next(queue, pool, playing, track_ids.drop_last());
        let before = queued_next(queue, pool, playing, track_ids.drop_last()).0;
        if before.entries.len() != 0 && before.ids_fresh() {
            crate::playback::queue::laws::lemma_inserted_fresh(
                before,
                before.next_insert_index(),
                track_ids.last(),
            );
        }
    }
}

/// Tracks queued to play next into a queue with a current entry land right
/// after the current entry and the user entries that follow it, in the order
/// they were queued; the cursor stays on the current entry.
pub proof fn law_queue_next_keeps_order(
    view: PlaybackQueueView,
    pool: Seq<TrackId>,
    playing: Option<TrackId>,
    track_ids: Seq<TrackId>,
)
    requires
        view.cursor < view.entries.len(),
    ensures
        ({
            let after = queued_next(view, pool, playing, track_ids).0;
            let at = view.next_insert_index();
            &&& after.cursor == view.cursor
            &&& after.entries.len() == view.entries.len() + track_ids.len()
            &&& after.next_insert_index() == at + track_ids.len()
            &&& forall|k: int|
                0 <= k < track_ids.len() ==> #[trigger] after.entries[at + k].track_id
                    == track_ids[k]
        }),
    decreases track_ids.len(),
{
    if track_ids.len() > 0 {
        let rest = track_ids.drop_last();
        law_queue_next_keeps_order(view, pool, playing, rest);
        let before = queued_next(view, pool, playing, rest).0;
        let at = view.next_insert_index();
        let insert_at = before.next_insert_index();
        lemma_user_run_bound(before.entries, before.cursor + 1int);
        let entry = PlaybackQueueEntry {
            id: before.next_id as u64,
            track_id: track_ids.last(),
            source: PlaybackQueueEntrySource::User,
        };
        lemma_user_run_insert(before.entries, before.cursor + 1int, insert_at, entry);
        let after = queued_next(view, pool, playing, track_ids).0;
        assert(after == before.inserted(insert_at, track_ids.last()));
        assert forall|k: int| 0 <= k < track_ids.len() implies #[trigger] after.entries[at
            + k].track_id == track_ids[k] by {
            if k < rest.len() {
                assert(after.entries[at + k] == before.entries[at + k]);
                assert(rest[k] == track_ids[k]);
            }
        }
    }
}

/// The outcomes that the queue can take: the queue must be able to grant the
/// identifiers they may need, and cycling the repeat mode of a shuffled queue
/// between repeating and not repeating needs a current entry.
pub open spec fn playback_outcome_defined(queue: PlaybackQueueView, outcome: PlaybackOutcome) -> bool {
    match outcome {
        PlaybackOutcome::PlayNext => queue.has_id_room(PLAYBACK_QUEUE_LENGTH as nat) && queue.cursor
            < usize::MAX,
        PlaybackOutcome::PlayPrevious => queue.has_id_room(PLAYBACK_QUEUE_LENGTH as nat) && queue.cursor
            + PLAYBACK_QUEUE_LENGTH <= usize::MAX,
        PlaybackOutcome::PlayQueueEntry(_) => queue.has_id_room(PLAYBACK_QUEUE_LENGTH as nat),
        PlaybackOutcome::CycleRepeatMode => queue.has_id_room(PLAYBACK_QUEUE_LENGTH as nat) && (
        queue.order == PlaybackQueueOrder::Shuffle && queue.repeating()
            != queue.repeat_mode.successor().repeats() ==> queue.cursor < queue.entries.len()),
        PlaybackOutcome::CycleOrder => queue.has_id_room(PLAYBACK_QUEUE_LENGTH as nat),
        PlaybackOutcome::QueueNext(track_ids) => queue.has_id_room(track_ids@.len()) && queue.cursor
            < usize::MAX,
        _ => true,
    }
}

/// Applies a playback outcome to the playback queue and the playing track, and
/// tells what is left for the audio controller to do. `displayed_track_ids`
/// are the tracks on display, over which a queue started here runs.
pub fn handle_playback_outcome(
    queue: &mut PlaybackQueue,
    displayed_track_ids: &Vec<TrackId>,
    current_playing_track_id: &mut Option<TrackId>,
    outcome: PlaybackOutcome,
) -> (action: PlaybackAction)
    requires
        old(queue)@.cursor_valid(),
        playback_outcome_defined(old(queue)@, outcome),
    ensures
        final(queue)@.cursor_valid(),
        old(queue)@.ids_fresh() ==> final(queue)@.ids_fresh(),
        match outcome {
            PlaybackOutcome::Resume => action == PlaybackAction::Resume && final(queue)@ == old(queue)@ && *final(current_playing_track_id) == *old(current_playing_track_id),
            PlaybackOutcome::Stop => action == PlaybackAction::Stop && final(queue)@ == old(queue)@
                && *final(current_playing_track_id) == *old(current_playing_track_id),
            PlaybackOutcome::Pause => action == PlaybackAction::Pause && final(queue)@ == old(queue)@ && *final(current_playing_track_id) == *old(current_playing_track_id),
            PlaybackOutcome::Seek { timestamp, post_seek_status } => action == (PlaybackAction::Seek {
                timestamp,
                post_seek_status,
            }) && final(queue)@ == old(queue)@ && *final(current_playing_track_id) == *old(current_playing_track_id),
            PlaybackOutcome::Play(track_id) => action == PlaybackAction::Play(track_id) && final(queue)@ == old(queue)@ && *final(current_playing_track_id) == *old(current_playing_track_id),
            PlaybackOutcome::StartQueue(track_id) => action == PlaybackAction::PlayAndStartQueue(
                track_id,
            ) && final(queue)@ == old(queue)@ && *final(current_playing_track_id) == *old(current_playing_track_id),
            PlaybackOutcome::SetVolumePercentage(percentage) => action
                == PlaybackAction::SetVolumePercentage(percentage) && final(queue)@ == old(queue)@
                && *final(current_playing_track_id) == *old(current_playing_track_id),
            PlaybackOutcome::PlayNext => plays_or_nothing(action) && old(queue)@.moved_next(final(queue)@, played_track(action)) && *final(current_playing_track_id)
                == *old(current_playing_track_id),
            PlaybackOutcome::PlayPrevious => plays_or_nothing(action) && old(queue)@.moved_previous(final(queue)@, played_track(action)) && *final(current_playing_track_id) == *old(current_playing_track_id),
            PlaybackOutcome::PlayQueueEntry(entry_id) => *final(current_playing_track_id) == *old(current_playing_track_id) && match entry_index(old(queue)@.entries, entry_id) {
                Some(i) => action == PlaybackAction::Play(old(queue)@.entries[i].track_id) && old(queue)@.with_cursor(i as nat).refilled_if_low(final(queue)@),
                None => action == PlaybackAction::Nothing && final(queue)@ == old(queue)@,
            },
            PlaybackOutcome::CycleRepeatMode => action == PlaybackAction::Nothing && old(queue)@.repeat_mode_cycled().refilled_if_low(final(queue)@) && *final(current_playing_track_id) == *old(current_playing_track_id),
            PlaybackOutcome::CycleOrder => action == PlaybackAction::Nothing && (PlaybackQueueView {
                order: old(queue)@.order.successor(),
                ..old(queue)@
            }).pruned().refilled_by(final(queue)@, PLAYBACK_QUEUE_LENGTH as nat) && *final(current_playing_track_id) == *old(current_playing_track_id),
            PlaybackOutcome::QueueNext(track_ids) => action == PlaybackAction::Nothing && (
            final(queue)@, *final(current_playing_track_id)) == queued_next(
                old(queue)@,
                displayed_track_ids@,
                *old(current_playing_track_id),
                track_ids@,
            ),
        },
{
    match outcome {
        PlaybackOutcome::Resume => PlaybackAction::Resume,
        PlaybackOutcome::Stop => PlaybackAction::Stop,
        PlaybackOutcome::Pause => PlaybackAction::Pause,
        PlaybackOutcome::Seek { timestamp, post_seek_status } => PlaybackAction::Seek {
            timestamp,
            post_seek_status,
        },
        PlaybackOutcome::Play(track_id) => PlaybackAction::Play(track_id),
        PlaybackOutcome::StartQueue(track_id) => PlaybackAction::PlayAndStartQueue(track_id),
        PlaybackOutcome::SetVolumePercentage(percentage) => PlaybackAction::SetVolumePercentage(
            percentage,
        ),
        PlaybackOutcome::PlayNext => match queue.next() {
            Some(next_track_id) => PlaybackAction::Play(next_track_id),
            None => PlaybackAction::Nothing,
        },
        PlaybackOutcome::PlayPrevious => match queue.previous() {
            Some(previous_track_id) => PlaybackAction::Play(previous_track_id),
            None => PlaybackAction::Nothing,
        },
        PlaybackOutcome::PlayQueueEntry(entry_id) => match queue.find_entry(entry_id) {
            Some((queue_entry_index, track_id)) => {
                queue.set_cursor(queue_entry_index);
                PlaybackAction::Play(track_id)
            },
            None => PlaybackAction::Nothing,
        },
        PlaybackOutcome::CycleRepeatMode => {
            queue.cycle_repeat_mode();
            PlaybackAction::Nothing
        },
        PlaybackOutcome::CycleOrder => {
            queue.cycle_queue_order();
            PlaybackAction::Nothing
        },
        PlaybackOutcome::QueueNext(queued_track_ids) => {
            let mut i: usize = 0;
            while i < queued_track_ids.len()
                invariant
                    i <= queued_track_ids@.len(),
                    old(queue)@.cursor_valid(),
                    old(queue)@.has_id_room(queued_track_ids@.len()),
                    old(queue)@.cursor < usize::MAX,
                    (queue@, *current_playing_track_id) == queued_next(
                        old(queue)@,
                        displayed_track_ids@,
                        *old(current_playing_track_id),
                        queued_track_ids@.take(i as int),
                    ),
                    queue@.cursor_valid(),
                    old(queue)@.ids_fresh() ==> queue@.ids_fresh(),
                decreases queued_track_ids@.len() - i,
            {
                let queued_track_id = queued_track_ids[i];
                proof {
                    assert(queued_track_ids@.take(i + 1).drop_last() =~= queued_track_ids@.take(
                        i as int,
                    ));
                    lemma_queued_next(
                        old(queue)@,
                        displayed_track_ids@,
                        *old(current_playing_track_id),
                        queued_track_ids@.take(i as int),
                    );
                }
                if queue.current().is_none() {
                    queue.start(displayed_track_ids.clone(), Some(queued_track_id));
                    *current_playing_track_id = Some(queued_track_id);
                } else {
                    queue.insert_next(queued_track_id);
                }
                i += 1;
            }
            assert(queued_track_ids@.take(queued_track_ids@.len() as int) =~= queued_track_ids@);
            PlaybackAction::Nothing
        },
    }
}

/// What is left for the tag storage to do once a tag outcome has been applied
/// to the track tag index.
#[derive(Debug)]
pub enum TagAction {
    Nothing,
    InsertTrackTag(TrackId, TagId),
    DeleteTrackTag(TrackId, TagId),
    InsertTag(TagGroupId, String),
    InsertTagGroup(String),
    DeleteTagGroup(TagGroupId),
    DeleteTag(TagId),
}

/// Applies a tag outcome to the track tag index and tells what the storage is
/// to do: a toggled track tag is deleted if it was there and inserted if not,
/// so that the storage keeps up with the index.
pub fn handle_tag_outcome(track_tag_index: &mut TrackTagIndex, outcome: TagOutcome) -> (action:
    TagAction)
    ensures
        match outcome {
            TagOutcome::ToggleTag(track_id, tag_id) => final(track_tag_index)@ == old(track_tag_index)@.toggled(track_id, tag_id) && action == if old(track_tag_index)@.has(
                track_id,
                tag_id,
            ) {
                TagAction::DeleteTrackTag(track_id, tag_id)
            } else {
                TagAction::InsertTrackTag(track_id, tag_id)
            },
            TagOutcome::SaveTags => final(track_tag_index)@ == old(track_tag_index)@ && action
                == TagAction::Nothing,
            TagOutcome::AddNewTag(tag_group_id, name) => final(track_tag_index)@ == old(track_tag_index)@ && action == TagAction::InsertTag(tag_group_id, name),
            TagOutcome::AddNewTagGroup(name) => final(track_tag_index)@ == old(track_tag_index)@
                && action == TagAction::InsertTagGroup(name),
            TagOutcome::RemoveTagGroup(tag_group_id) => final(track_tag_index)@ == old(track_tag_index)@ && action == TagAction::DeleteTagGroup(tag_group_id),
            TagOutcome::RemoveTag(tag_id) => final(track_tag_index)@ == old(track_tag_index)@
                && action == TagAction::DeleteTag(tag_id),
        },
{
    match outcome {
        TagOutcome::ToggleTag(track_id, tag_id) => {
            let tag_track_exists = track_tag_index.track_tag_exists(track_id, tag_id);
            track_tag_index.toggle_track_tag(track_id, tag_id);
            if tag_track_exists {
                TagAction::DeleteTrackTag(track_id, tag_id)
            } else {
                TagAction::InsertTrackTag(track_id, tag_id)
            }
        },
        TagOutcome::SaveTags => TagAction::Nothing,
        TagOutcome::AddNewTag(tag_group_id, name) => TagAction::InsertTag(tag_group_id, name),
        TagOutcome::AddNewTagGroup(name) => TagAction::InsertTagGroup(name),
        TagOutcome::RemoveTagGroup(tag_group_id) => TagAction::DeleteTagGroup(tag_group_id),
        TagOutcome::RemoveTag(tag_id) => TagAction::DeleteTag(tag_id),
    }
}

/// The playback actions that hand playback back to the playback bar when a
/// modal owning it closes: the bar's track is played again from the bar's
/// position, paused if the bar is paused; without a track, playing audio is
/// paused.
pub open spec fn handover_actions(
    playback_bar: PlaybackBar,
    playback_controller_status: PlaybackControllerStatus,
    timestamp: u64,
) -> Seq<PlaybackAction> {
    match playback_bar.playing_track_id {
        Some(track_id) => seq![PlaybackAction::PlayAt { track_id, timestamp }] + if playback_bar.status
            == PlaybackBarStatus::Paused {
            seq![PlaybackAction::Pause]
        } else {
            Seq::empty()
        },
        None => if playback_controller_status == PlaybackControllerStatus::Playing {
            seq![PlaybackAction::Pause]
        } else {
            Seq::empty()
        },
    }
}

/// Applies a modal outcome to the playback owner and the modal controller, and
/// tells what is left for the audio controller to do. `playback_bar_timestamp`
/// is the playback bar's position in whole frames.
pub fn handle_modal_outcome(
    current_playback_owner: &mut PlaybackOwner,
    modal_controller: &mut ModalController,
    playback_bar: &PlaybackBar,
    playback_controller_status: PlaybackControllerStatus,
    playback_bar_timestamp: u64,
    outcome: ModalOutcome,
) -> (actions: Vec<PlaybackAction>)
    ensures
        match outcome {
            ModalOutcome::CloseModal => final(modal_controller)@ is None && *final(current_playback_owner) == PlaybackOwner::PlaybackBar && actions@ == if *old(current_playback_owner)
                == PlaybackOwner::PlaybackBar {
                Seq::empty()
            } else {
                handover_actions(*playback_bar, playback_controller_status, playback_bar_timestamp)
            },
            ModalOutcome::OpenTagTracksModal(queue) => if queue@.len() == 0 {
                final(modal_controller)@ == old(modal_controller)@ && *final(current_playback_owner)
                    == *old(current_playback_owner) && actions@.len() == 0
            } else {
                &&& *final(current_playback_owner) == PlaybackOwner::TagTrackModal
                &&& actions@ == seq![PlaybackAction::Play(queue@[0])]
                &&& match final(modal_controller)@ {
                    Some(AppModal::TagTracks(modal)) => modal@ == opened_tag_tracks(queue@),
                    _ => false,
                }
            },
            ModalOutcome::OpenManageTagsModal => *final(current_playback_owner) == *old(current_playback_owner) && actions@.len() == 0 && match final(modal_controller)@ {
                Some(AppModal::ManageTags(modal)) => modal@ == opened_manage_tags(),
                _ => false,
            },
        },
{
    let mut actions: Vec<PlaybackAction> = Vec::new();
    match outcome {
        ModalOutcome::CloseModal => {
            if let PlaybackOwner::TagTrackModal = current_playback_owner {
                if let Some(current_playing_track_id) = playback_bar.playing_track_id {
                    actions.push(
                        PlaybackAction::PlayAt {
                            track_id: current_playing_track_id,
                            timestamp: playback_bar_timestamp,
                        },
                    );
                    if let PlaybackBarStatus::Paused = playback_bar.status {
                        actions.push(PlaybackAction::Pause);
                    }
                } else if let PlaybackControllerStatus::Playing = playback_controller_status {
                    actions.push(PlaybackAction::Pause);
                }
                *current_playback_owner = PlaybackOwner::PlaybackBar;
            }
            modal_controller.close_modal();
            assert(actions@ =~= if *old(current_playback_owner) == PlaybackOwner::PlaybackBar {
                Seq::empty()
            } else {
                handover_actions(*playback_bar, playback_controller_status, playback_bar_timestamp)
            });
        },
        ModalOutcome::OpenTagTracksModal(track_tagging_queue) => {
            if track_tagging_queue.len() > 0 {
                let first_track_id = track_tagging_queue[0];
                *current_playback_owner = PlaybackOwner::TagTrackModal;
                actions.push(PlaybackAction::Play(first_track_id));
                modal_controller.open_tag_tracks_modal(track_tagging_queue);
            }
        },
        ModalOutcome::OpenManageTagsModal => {
            modal_controller.open_manage_tags_modal();
        },
    }
    actions
}

} // verus!
