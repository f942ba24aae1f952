use rustc_hash::FxHashSet;
use soundlore::event::{Event, PlaybackOwner, PositionUpdate};
use soundlore::outcome::{ModalOutcome, PlaybackOutcome, TagOutcome, TrackListOutcome};
use soundlore::playback::controller::PlaybackControllerStatus;
use soundlore::ui::keyboard::{Key, KeyboardEvent, Modifiers};
use soundlore::ui::modals::tag_tracks::KeyboardScrubDirection;
use soundlore::ui::modals::{Message, ModalController, Outcome, advanced_search, manage_tags, tag_tracks};

fn send(controller: &mut ModalController, message: Message) -> (Option<KeyboardScrubDirection>, Vec<Outcome>) {
    let tracks: FxHashSet<i64> = (1..=10).collect();
    controller.update(message, &tracks, &[], &[], &PlaybackControllerStatus::Playing, 10)
}

#[test]
fn keyboard_events_reach_only_the_tag_tracks_modal() {
    let mut controller = ModalController::default();
    let escape = KeyboardEvent::KeyPressed {
        key: Key::Escape,
        modifiers: Modifiers { shift: false, command: false, other: false },
        repeat: false,
    };

    let (_, outcomes) = send(&mut controller, Message::Keyboard(escape));
    assert!(outcomes.is_empty());

    send(&mut controller, Message::OpenManageTagsModal);
    let (_, outcomes) = send(&mut controller, Message::Keyboard(escape));
    assert!(outcomes.is_empty());

    send(&mut controller, Message::OpenTagTracksModal(vec![2, 3]));
    let (_, outcomes) = send(&mut controller, Message::Keyboard(escape));
    assert!(matches!(outcomes.as_slice(), [Outcome::Modal(ModalOutcome::CloseModal)]));

    let right = KeyboardEvent::KeyPressed {
        key: Key::ArrowRight,
        modifiers: Modifiers { shift: false, command: false, other: false },
        repeat: false,
    };
    let (scrub, outcomes) = send(&mut controller, Message::Keyboard(right));
    assert_eq!(scrub, Some(KeyboardScrubDirection::Right));
    assert!(matches!(outcomes.as_slice(), [Outcome::Playback(PlaybackOutcome::Pause)]));
}

#[test]
fn modal_messages_reach_their_modal_only() {
    let mut controller = ModalController::default();

    let (_, outcomes) = send(&mut controller, Message::TagTracksModal(tag_tracks::Message::ToggleTag(4)));
    assert!(outcomes.is_empty());

    send(&mut controller, Message::OpenTagTracksModal(vec![2, 3]));
    let (_, outcomes) = send(&mut controller, Message::TagTracksModal(tag_tracks::Message::ToggleTag(4)));
    assert!(matches!(outcomes.as_slice(), [Outcome::Tag(TagOutcome::ToggleTag(2, 4))]));
    let (_, outcomes) = send(&mut controller, Message::ManageTagsModal(manage_tags::Message::RemoveTag(4)));
    assert!(outcomes.is_empty());

    send(&mut controller, Message::OpenManageTagsModal);
    let (_, outcomes) = send(&mut controller, Message::ManageTagsModal(manage_tags::Message::RemoveTag(4)));
    assert!(matches!(outcomes.as_slice(), [Outcome::Tag(TagOutcome::RemoveTag(4))]));

    controller.open_advanced_search_modal();
    let (_, outcomes) = send(
        &mut controller,
        Message::AdvancedSearchModal(advanced_search::Message::Search),
    );
    assert!(matches!(
        outcomes.as_slice(),
        [Outcome::TrackList(TrackListOutcome::AdvancedSearch(criteria))] if criteria.conditions.is_empty()
    ));

    let (_, outcomes) = send(&mut controller, Message::CloseModal);
    assert!(outcomes.is_empty());
    assert!(!controller.is_modal_active());
}

#[test]
fn playback_events_reach_the_tag_tracks_modal() {
    let mut controller = ModalController::default();
    assert_eq!(
        controller.on_event(&Event::PlaybackProgressed, &PlaybackOwner::TagTrackModal),
        PositionUpdate::Keep
    );
    controller.open_tag_tracks_modal(vec![1]);
    assert_eq!(
        controller.on_event(&Event::PlaybackProgressed, &PlaybackOwner::TagTrackModal),
        PositionUpdate::Follow
    );
    controller.close_modal();
    assert!(!controller.is_modal_active());
}
