use rustc_hash::FxHashSet;
use soundlore::event::PlaybackOwner;
use soundlore::outcome::{
    ModalOutcome, PlaybackAction, PlaybackOutcome, TagAction, TagOutcome, handle_modal_outcome,
    handle_playback_outcome, handle_tag_outcome,
};
use soundlore::playback::controller::PlaybackControllerStatus;
use soundlore::playback::queue::handler::{handle_track_finished, play_next_track};
use soundlore::playback::queue::{PlaybackQueue, PlaybackQueueOrder, PlaybackRepeatMode};
use soundlore::tag::index::TrackTagIndex;
use soundlore::ui::components::playback_bar::{PlaybackBar, PlaybackBarStatus};
use soundlore::ui::modals::ModalController;

fn started_queue() -> PlaybackQueue {
    let mut queue = PlaybackQueue::new();
    queue.start((0..10).collect(), Some(0));
    queue
}

#[test]
fn queueing_next_into_an_empty_queue_starts_it_from_the_first_track() {
    let mut queue = PlaybackQueue::new();
    let displayed = vec![4, 5, 6];
    let mut playing = None;

    let action = handle_playback_outcome(
        &mut queue,
        &displayed,
        &mut playing,
        PlaybackOutcome::QueueNext(vec![5, 9]),
    );

    assert_eq!(action, PlaybackAction::Nothing);
    assert_eq!(playing, Some(5));
    assert_eq!(queue.track_pool(), displayed.as_slice());
    assert_eq!(queue.current(), Some(5));
    assert_eq!(queue.next(), Some(9));
}

#[test]
fn tracks_queued_next_play_next_in_the_order_queued() {
    let mut queue = started_queue();
    let mut playing = Some(0);

    handle_playback_outcome(&mut queue, &vec![], &mut playing, PlaybackOutcome::QueueNext(vec![20, 21]));
    handle_playback_outcome(&mut queue, &vec![], &mut playing, PlaybackOutcome::QueueNext(vec![22]));

    assert_eq!(playing, Some(0));
    assert_eq!(queue.current(), Some(0));
    assert_eq!(queue.next(), Some(20));
    assert_eq!(queue.next(), Some(21));
    assert_eq!(queue.next(), Some(22));
}

#[test]
fn playing_next_and_previous_moves_through_the_queue() {
    let mut queue = started_queue();
    let mut playing = Some(0);

    let action = handle_playback_outcome(&mut queue, &vec![], &mut playing, PlaybackOutcome::PlayNext);
    assert_eq!(action, PlaybackAction::Play(1));
    let action =
        handle_playback_outcome(&mut queue, &vec![], &mut playing, PlaybackOutcome::PlayPrevious);
    assert_eq!(action, PlaybackAction::Play(0));
    let action =
        handle_playback_outcome(&mut queue, &vec![], &mut playing, PlaybackOutcome::PlayPrevious);
    assert_eq!(action, PlaybackAction::Nothing);
}

#[test]
fn playing_a_queue_entry_moves_the_cursor_onto_it() {
    let mut queue = started_queue();
    let mut playing = Some(0);
    queue.next();
    let entry = queue.entries[3];

    let action = handle_playback_outcome(
        &mut queue,
        &vec![],
        &mut playing,
        PlaybackOutcome::PlayQueueEntry(entry.id),
    );
    assert_eq!(action, PlaybackAction::Play(entry.track_id));
    assert_eq!(queue.cursor, 3);

    let action = handle_playback_outcome(
        &mut queue,
        &vec![],
        &mut playing,
        PlaybackOutcome::PlayQueueEntry(u64::MAX),
    );
    assert_eq!(action, PlaybackAction::Nothing);
    assert_eq!(queue.cursor, 3);
}

#[test]
fn controller_outcomes_pass_through_unchanged() {
    let mut queue = started_queue();
    let mut playing = Some(0);
    let mut handle = |outcome| handle_playback_outcome(&mut queue, &vec![1, 2], &mut playing, outcome);

    assert_eq!(handle(PlaybackOutcome::Resume), PlaybackAction::Resume);
    assert_eq!(handle(PlaybackOutcome::Pause), PlaybackAction::Pause);
    assert_eq!(handle(PlaybackOutcome::Stop), PlaybackAction::Stop);
    assert_eq!(handle(PlaybackOutcome::Play(7)), PlaybackAction::Play(7));
    assert_eq!(handle(PlaybackOutcome::StartQueue(2)), PlaybackAction::PlayAndStartQueue(2));
    assert_eq!(
        handle(PlaybackOutcome::SetVolumePercentage(20)),
        PlaybackAction::SetVolumePercentage(20)
    );
    assert_eq!(
        handle(PlaybackOutcome::Seek {
            timestamp: 9,
            post_seek_status: Some(PlaybackControllerStatus::Stopped),
        }),
        PlaybackAction::Seek { timestamp: 9, post_seek_status: Some(PlaybackControllerStatus::Stopped) }
    );
    assert_eq!(handle(PlaybackOutcome::CycleRepeatMode), PlaybackAction::Nothing);
    assert_eq!(handle(PlaybackOutcome::CycleOrder), PlaybackAction::Nothing);
    assert!(matches!(queue.repeat_mode, PlaybackRepeatMode::Repeat));
    assert!(matches!(queue.order, PlaybackQueueOrder::Shuffle));
}

#[test]
fn repeating_one_track_plays_it_again() {
    let mut queue = started_queue();
    queue.cycle_repeat_mode();
    queue.cycle_repeat_mode();
    assert!(matches!(queue.repeat_mode, PlaybackRepeatMode::RepeatOne));
    assert_eq!(play_next_track(&mut queue), Some(0));
    assert_eq!(play_next_track(&mut queue), Some(0));

    let mut queue = started_queue();
    assert_eq!(play_next_track(&mut queue), Some(1));
}

#[test]
fn a_finished_track_loops_under_the_tag_tracks_modal() {
    let mut queue = started_queue();
    assert_eq!(handle_track_finished(&mut queue, PlaybackOwner::TagTrackModal, Some(8)), Some(8));
    assert_eq!(queue.current(), Some(0));
    assert_eq!(handle_track_finished(&mut queue, PlaybackOwner::PlaybackBar, Some(8)), Some(1));
}

#[test]
fn toggling_a_track_tag_inserts_then_deletes_it() {
    let mut index = TrackTagIndex::new(vec![]);

    let action = handle_tag_outcome(&mut index, TagOutcome::ToggleTag(1, 2));
    assert!(matches!(action, TagAction::InsertTrackTag(1, 2)));
    assert!(index.track_tag_exists(1, 2));

    let action = handle_tag_outcome(&mut index, TagOutcome::ToggleTag(1, 2));
    assert!(matches!(action, TagAction::DeleteTrackTag(1, 2)));
    assert!(!index.track_tag_exists(1, 2));

    assert!(matches!(handle_tag_outcome(&mut index, TagOutcome::SaveTags), TagAction::Nothing));
    assert!(matches!(
        handle_tag_outcome(&mut index, TagOutcome::AddNewTag(3, "Folk".to_string())),
        TagAction::InsertTag(3, name) if name == "Folk"
    ));
    assert!(matches!(
        handle_tag_outcome(&mut index, TagOutcome::AddNewTagGroup("Era".to_string())),
        TagAction::InsertTagGroup(name) if name == "Era"
    ));
    assert!(matches!(
        handle_tag_outcome(&mut index, TagOutcome::RemoveTagGroup(3)),
        TagAction::DeleteTagGroup(3)
    ));
    assert!(matches!(handle_tag_outcome(&mut index, TagOutcome::RemoveTag(4)), TagAction::DeleteTag(4)));
}

#[test]
fn opening_the_tag_tracks_modal_hands_playback_to_it() {
    let mut owner = PlaybackOwner::PlaybackBar;
    let mut controller = ModalController::default();
    let bar = PlaybackBar::new();

    let actions = handle_modal_outcome(
        &mut owner,
        &mut controller,
        &bar,
        PlaybackControllerStatus::Playing,
        0,
        ModalOutcome::OpenTagTracksModal(vec![]),
    );
    assert!(actions.is_empty());
    assert!(!controller.is_modal_active());
    assert_eq!(owner, PlaybackOwner::PlaybackBar);

    let actions = handle_modal_outcome(
        &mut owner,
        &mut controller,
        &bar,
        PlaybackControllerStatus::Playing,
        0,
        ModalOutcome::OpenTagTracksModal(vec![6, 7]),
    );
    assert_eq!(actions, vec![PlaybackAction::Play(6)]);
    assert!(controller.is_modal_active());
    assert_eq!(owner, PlaybackOwner::TagTrackModal);
}

#[test]
fn closing_the_tag_tracks_modal_hands_playback_back_to_the_bar() {
    let mut owner = PlaybackOwner::TagTrackModal;
    let mut controller = ModalController::default();
    let mut bar = PlaybackBar::new();
    bar.playing_track_id = Some(3);
    bar.status = PlaybackBarStatus::Paused;

    let actions = handle_modal_outcome(
        &mut owner,
        &mut controller,
        &bar,
        PlaybackControllerStatus::Playing,
        480,
        ModalOutcome::CloseModal,
    );
    assert_eq!(
        actions,
        vec![PlaybackAction::PlayAt { track_id: 3, timestamp: 480 }, PlaybackAction::Pause]
    );
    assert_eq!(owner, PlaybackOwner::PlaybackBar);
    assert!(!controller.is_modal_active());

    let mut owner = PlaybackOwner::TagTrackModal;
    let actions = handle_modal_outcome(
        &mut owner,
        &mut controller,
        &PlaybackBar::new(),
        PlaybackControllerStatus::Playing,
        480,
        ModalOutcome::CloseModal,
    );
    assert_eq!(actions, vec![PlaybackAction::Pause]);

    let actions = handle_modal_outcome(
        &mut owner,
        &mut controller,
        &bar,
        PlaybackControllerStatus::Playing,
        480,
        ModalOutcome::CloseModal,
    );
    assert!(actions.is_empty());
}

#[test]
fn opening_the_manage_tags_modal_keeps_the_playback_owner() {
    let mut owner = PlaybackOwner::PlaybackBar;
    let mut controller = ModalController::default();
    let actions = handle_modal_outcome(
        &mut owner,
        &mut controller,
        &PlaybackBar::new(),
        PlaybackControllerStatus::Stopped,
        0,
        ModalOutcome::OpenManageTagsModal,
    );
    assert!(actions.is_empty());
    assert!(controller.is_modal_active());
    assert_eq!(owner, PlaybackOwner::PlaybackBar);
}

#[test]
fn shuffling_samples_a_queue_length_of_distinct_pool_tracks() {
    let mut queue = PlaybackQueue::new();
    queue.start((0..200).collect(), None);
    queue.cycle_queue_order();
    assert!(matches!(queue.order, PlaybackQueueOrder::Shuffle));

    let tracks: Vec<i64> = queue.entries.iter().map(|entry| entry.track_id).collect();
    assert_eq!(tracks.len(), 50);
    let distinct: FxHashSet<i64> = tracks.iter().copied().collect();
    assert_eq!(distinct.len(), 50);
    assert!(tracks.iter().all(|track_id| (0..200).contains(track_id)));
}

#[test]
fn shuffling_a_pool_of_a_queue_length_plays_all_of_it_out_of_order() {
    let mut queue = PlaybackQueue::new();
    queue.start((0..50).collect(), None);
    queue.cycle_queue_order();

    let tracks: Vec<i64> = queue.entries.iter().map(|entry| entry.track_id).collect();
    let mut sorted = tracks.clone();
    sorted.sort();
    assert_eq!(sorted, (0..50).collect::<Vec<i64>>());
    assert_ne!(tracks, sorted);
}

#[test]
fn cycling_modes_comes_back_to_the_start() {
    let mut queue = started_queue();
    queue.cycle_queue_order();
    queue.cycle_queue_order();
    assert!(matches!(queue.order, PlaybackQueueOrder::Sequential));
    queue.cycle_repeat_mode();
    queue.cycle_repeat_mode();
    queue.cycle_repeat_mode();
    assert!(matches!(queue.repeat_mode, PlaybackRepeatMode::NoRepeat));
}

#[test]
fn removing_an_inserted_entry_gives_back_the_queue() {
    let mut queue = started_queue();
    queue.next();
    queue.next();
    let entries: Vec<(u64, i64)> = queue.entries.iter().map(|e| (e.id, e.track_id)).collect();
    let cursor = queue.cursor;

    queue.insert(1, 99);
    assert_eq!(queue.cursor, cursor + 1);
    queue.remove(1).unwrap();

    let after: Vec<(u64, i64)> = queue.entries.iter().map(|e| (e.id, e.track_id)).collect();
    assert_eq!(after, entries);
    assert_eq!(queue.cursor, cursor);
}
