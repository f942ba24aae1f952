use rustc_hash::FxHashSet;
use soundlore::event::{Event, PlaybackOwner, PositionUpdate};
use soundlore::outcome::{ModalOutcome, PlaybackOutcome, TrackListOutcome};
use soundlore::playback::controller::PlaybackControllerStatus;
use soundlore::playback::queue::entry::PlaybackQueueEntry;
use soundlore::ui::components::explorer_pane::{self, ExplorerPane};
use soundlore::ui::components::main_pane::{self, MainPane, TrackTableColumn};
use soundlore::ui::components::navigation_bar::{self, NavigationBar};
use soundlore::ui::components::playback_bar::{self, PlaybackBar, PlaybackBarStatus};
use soundlore::ui::components::queue_pane::{self, QueuePane};
use soundlore::ui::components::track_information_pane::TrackInformationPane;

fn volume(outcomes: &[playback_bar::Outcome]) -> Option<u8> {
    match outcomes {
        [playback_bar::Outcome::Playback(PlaybackOutcome::SetVolumePercentage(volume))] => {
            Some(*volume)
        }
        _ => None,
    }
}

#[test]
fn playback_bar_starts_at_half_volume() {
    let bar = PlaybackBar::new();
    assert_eq!(bar.volume_percentage, 50);
    assert!(!bar.muted);
    assert_eq!(bar.status, PlaybackBarStatus::Playing);
    assert_eq!(bar.playing_track_id, None);
    assert_eq!(PlaybackBar::default().volume_percentage, 50);
}

#[test]
fn playback_bar_pauses_and_resumes_only_with_a_track() {
    let mut bar = PlaybackBar::new();
    let status = PlaybackControllerStatus::Playing;

    assert!(bar.update(playback_bar::Message::Pause, &status, 0).is_empty());
    assert_eq!(bar.status, PlaybackBarStatus::Playing);

    bar.on_event(&Event::ActiveTrackChanged(Some(4)), &PlaybackOwner::PlaybackBar);
    assert_eq!(bar.playing_track_id, Some(4));

    let outcomes = bar.update(playback_bar::Message::Pause, &status, 0);
    assert!(matches!(
        outcomes.as_slice(),
        [playback_bar::Outcome::Playback(PlaybackOutcome::Pause)]
    ));
    assert_eq!(bar.status, PlaybackBarStatus::Paused);

    let outcomes = bar.update(playback_bar::Message::Resume, &status, 0);
    assert!(matches!(
        outcomes.as_slice(),
        [playback_bar::Outcome::Playback(PlaybackOutcome::Resume)]
    ));
    assert_eq!(bar.status, PlaybackBarStatus::Playing);
}

#[test]
fn playback_bar_seeks_resuming_the_status_it_shows() {
    let mut bar = PlaybackBar::new();
    let outcomes = bar.update(playback_bar::Message::Seeked, &PlaybackControllerStatus::Stopped, 77);
    assert!(matches!(
        outcomes.as_slice(),
        [playback_bar::Outcome::Playback(PlaybackOutcome::Seek {
            timestamp: 77,
            post_seek_status: Some(PlaybackControllerStatus::Playing),
        })]
    ));

    bar.status = PlaybackBarStatus::Paused;
    let outcomes = bar.update(playback_bar::Message::Seeked, &PlaybackControllerStatus::Stopped, 5);
    assert!(matches!(
        outcomes.as_slice(),
        [playback_bar::Outcome::Playback(PlaybackOutcome::Seek {
            timestamp: 5,
            post_seek_status: Some(PlaybackControllerStatus::Stopped),
        })]
    ));

    let outcomes =
        bar.update(playback_bar::Message::Scrubbed, &PlaybackControllerStatus::Playing, 5);
    assert!(matches!(
        outcomes.as_slice(),
        [playback_bar::Outcome::Playback(PlaybackOutcome::Pause)]
    ));
    assert!(bar
        .update(playback_bar::Message::Scrubbed, &PlaybackControllerStatus::Stopped, 5)
        .is_empty());
}

#[test]
fn muting_twice_gives_back_the_volume() {
    let mut bar = PlaybackBar::new();
    let status = PlaybackControllerStatus::Playing;

    assert_eq!(volume(&bar.update(playback_bar::Message::ChangeVolumePercentage(30), &status, 0)), Some(30));
    assert_eq!(volume(&bar.update(playback_bar::Message::MutePlayback, &status, 0)), Some(0));
    assert!(bar.muted);
    assert_eq!(volume(&bar.update(playback_bar::Message::MutePlayback, &status, 0)), Some(30));
    assert!(!bar.muted);
}

#[test]
fn playback_bar_queue_controls_ask_for_the_queue() {
    let mut bar = PlaybackBar::new();
    let status = PlaybackControllerStatus::Playing;
    assert!(matches!(
        bar.update(playback_bar::Message::PlayNext, &status, 0).as_slice(),
        [playback_bar::Outcome::Playback(PlaybackOutcome::PlayNext)]
    ));
    assert!(matches!(
        bar.update(playback_bar::Message::PlayPrevious, &status, 0).as_slice(),
        [playback_bar::Outcome::Playback(PlaybackOutcome::PlayPrevious)]
    ));
    assert!(matches!(
        bar.update(playback_bar::Message::CycleRepeatMode, &status, 0).as_slice(),
        [playback_bar::Outcome::Playback(PlaybackOutcome::CycleRepeatMode)]
    ));
    assert!(matches!(
        bar.update(playback_bar::Message::CycleQueueOrder, &status, 0).as_slice(),
        [playback_bar::Outcome::Playback(PlaybackOutcome::CycleOrder)]
    ));
}

#[test]
fn playback_bar_follows_playback_only_while_it_owns_it() {
    let mut bar = PlaybackBar::new();
    bar.status = PlaybackBarStatus::Paused;
    assert_eq!(
        bar.on_event(&Event::AttemptedPlayingTrack, &PlaybackOwner::TagTrackModal),
        PositionUpdate::Keep
    );
    assert_eq!(bar.status, PlaybackBarStatus::Paused);
    assert_eq!(
        bar.on_event(&Event::AttemptedPlayingTrack, &PlaybackOwner::PlaybackBar),
        PositionUpdate::Reset
    );
    assert_eq!(bar.status, PlaybackBarStatus::Playing);
    assert_eq!(
        bar.on_event(&Event::PlaybackProgressed, &PlaybackOwner::PlaybackBar),
        PositionUpdate::Follow
    );
    bar.on_event(&Event::ActiveTrackChanged(Some(3)), &PlaybackOwner::TagTrackModal);
    assert_eq!(bar.playing_track_id, None);
}

#[test]
fn main_pane_queues_and_tags_the_selection_in_display_order() {
    let mut pane = MainPane::default();
    let displayed = vec![5, 3, 9, 1, 7];

    assert!(pane.update(main_pane::Message::QueueNext, &displayed).is_empty());
    assert!(pane.update(main_pane::Message::TagSelection, &displayed).is_empty());

    let selection: FxHashSet<i64> = [1, 9, 5, 42].into_iter().collect();
    assert!(pane.update(main_pane::Message::TrackRowSelected(selection), &displayed).is_empty());

    let outcomes = pane.update(main_pane::Message::QueueNext, &displayed);
    assert!(matches!(
        outcomes.as_slice(),
        [main_pane::Outcome::Playback(PlaybackOutcome::QueueNext(queued))] if queued == &vec![5, 9, 1]
    ));
    let outcomes = pane.update(main_pane::Message::TagSelection, &displayed);
    assert!(matches!(
        outcomes.as_slice(),
        [main_pane::Outcome::Modal(ModalOutcome::OpenTagTracksModal(queue))] if queue == &vec![5, 9, 1]
    ));
    let outcomes = pane.update(main_pane::Message::TrackRowDoubleClicked(3), &displayed);
    assert!(matches!(
        outcomes.as_slice(),
        [main_pane::Outcome::Playback(PlaybackOutcome::StartQueue(3))]
    ));
    assert!(pane
        .update(main_pane::Message::ColumnHeaderCellClicked(TrackTableColumn::Title), &displayed)
        .is_empty());
}

#[test]
fn toggling_a_tag_group_twice_collapses_it_again() {
    let mut pane = ExplorerPane::default();
    assert!(!pane.is_tag_group_expanded(2));
    assert!(pane.update(explorer_pane::Message::ToggleTagGroup(2)).is_empty());
    assert!(pane.is_tag_group_expanded(2));
    assert!(!pane.is_tag_group_expanded(3));
    pane.update(explorer_pane::Message::ToggleTagGroup(2));
    assert!(!pane.is_tag_group_expanded(2));
}

#[test]
fn explorer_selections_ask_for_track_lists() {
    let mut pane = ExplorerPane::default();
    assert!(matches!(
        pane.update(explorer_pane::Message::SelectedMainLibrary).as_slice(),
        [explorer_pane::Outcome::TrackList(TrackListOutcome::DisplayMainLibraryTrackList)]
    ));
    assert!(matches!(
        pane.update(explorer_pane::Message::SelectedTag(8)).as_slice(),
        [explorer_pane::Outcome::TrackList(TrackListOutcome::DisplayTagTrackList(8))]
    ));
}

#[test]
fn navigation_menu_choices_ask_for_their_dialogs() {
    let mut bar = NavigationBar {};
    assert!(matches!(
        bar.update(navigation_bar::Message::SelectedScanDirectoryOption).as_slice(),
        [navigation_bar::Outcome::OpenSelectDirectoryDialog]
    ));
    assert!(matches!(
        bar.update(navigation_bar::Message::SelectedEditMenuManageTagsOption).as_slice(),
        [navigation_bar::Outcome::Modal(ModalOutcome::OpenManageTagsModal)]
    ));
}

#[test]
fn track_information_follows_the_playback_bar_track() {
    let mut pane = TrackInformationPane::default();
    pane.on_event(&Event::ActiveTrackChanged(Some(6)), &PlaybackOwner::TagTrackModal);
    assert_eq!(pane.playing_track_id(), None);
    pane.on_event(&Event::ActiveTrackChanged(Some(6)), &PlaybackOwner::PlaybackBar);
    assert_eq!(pane.playing_track_id(), Some(6));
    pane.on_event(&Event::PlaybackProgressed, &PlaybackOwner::PlaybackBar);
    assert_eq!(pane.playing_track_id(), Some(6));
}

#[test]
fn queue_pane_follows_the_queue() {
    let mut pane = QueuePane::default();
    let entries = vec![
        PlaybackQueueEntry::system(0, 4),
        PlaybackQueueEntry::user(1, 9),
    ];
    pane.on_event(&Event::QueueChanged(entries.clone()));
    assert_eq!(pane.queue_entries(), entries.as_slice());
    pane.on_event(&Event::AttemptedPlayingTrack);
    assert_eq!(pane.queue_entries(), entries.as_slice());
    pane.update(queue_pane::Message::TrackRowSelected(FxHashSet::default()));
    pane.update(queue_pane::Message::TrackRowDoubleClicked(entries[0]));
    assert_eq!(pane.queue_entries(), entries.as_slice());
}
