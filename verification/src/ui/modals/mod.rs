//! The modal shown over the application, if any, and the routing of messages
//! and events to it.
use rustc_hash::FxHashSet;
use vstd::prelude::*;

use crate::event::{Event, PlaybackOwner, PositionUpdate};
use crate::outcome::{ModalOutcome, PlaybackOutcome, TagOutcome, TrackListOutcome};
use crate::playback::controller::PlaybackControllerStatus;
use crate::playback::queue::entry::TrackId;
use crate::tag::models::{Tag, TagGroup};
use crate::ui::keyboard::KeyboardEvent;

pub mod advanced_search;
pub mod manage_tags;
pub mod tag_tracks;

use self::advanced_search::AdvancedSearchModal;
use self::manage_tags::{ManageTagsModal, ManageTagsModalView};
use self::tag_tracks::{
    KeyboardScrubDirection, PlaybackStatus, ScrubbingKeyboardAction, TagTracksModal,
    TagTracksModalView,
};

verus! {

pub enum AppModal {
    ManageTags(ManageTagsModal),
    TagTracks(TagTracksModal),
    AdvancedSearch(AdvancedSearchModal),
}

pub struct ModalController {
    modal: Option<AppModal>,
}

#[derive(Debug)]
pub enum Message {
    Keyboard(KeyboardEvent),
    OpenManageTagsModal,
    OpenTagTracksModal(Vec<TrackId>),
    CloseModal,
    ManageTagsModal(manage_tags::Message),
    TagTracksModal(tag_tracks::Message),
    AdvancedSearchModal(advanced_search::Message),
}

#[derive(Debug)]
pub enum Outcome {
    Playback(PlaybackOutcome),
    Modal(ModalOutcome),
    Tag(TagOutcome),
    TrackList(TrackListOutcome),
}

impl View for ModalController {
    type V = Option<AppModal>;

    /// The modal shown, if any.
    closed spec fn view(&self) -> Option<AppModal> {
        self.modal
    }
}

pub open spec fn from_tag_tracks(outcome: tag_tracks::Outcome) -> Outcome {
    match outcome {
        tag_tracks::Outcome::Playback(outcome) => Outcome::Playback(outcome),
        tag_tracks::Outcome::Modal(outcome) => Outcome::Modal(outcome),
        tag_tracks::Outcome::Tag(outcome) => Outcome::Tag(outcome),
    }
}

pub open spec fn from_manage_tags(outcome: manage_tags::Outcome) -> Outcome {
    match outcome {
        manage_tags::Outcome::Modal(outcome) => Outcome::Modal(outcome),
        manage_tags::Outcome::Tag(outcome) => Outcome::Tag(outcome),
    }
}

pub open spec fn from_advanced_search(outcome: advanced_search::Outcome) -> Outcome {
    match outcome {
        advanced_search::Outcome::Modal(outcome) => Outcome::Modal(outcome),
        advanced_search::Outcome::TrackList(outcome) => Outcome::TrackList(outcome),
    }
}

fn lift_tag_tracks(outcomes: Vec<tag_tracks::Outcome>) -> (lifted: Vec<Outcome>)
    ensures
        lifted@ == outcomes@.map_values(|outcome: tag_tracks::Outcome| from_tag_tracks(outcome)),
{
    let ghost given = outcomes@;
    let mut remaining = outcomes;
    let mut lifted: Vec<Outcome> = Vec::new();
    while remaining.len() > 0
        invariant
            lifted@.len() + remaining@.len() == given.len(),
            remaining@ == given.skip(lifted@.len() as int),
            lifted@ == given.take(lifted@.len() as int).map_values(
                |outcome: tag_tracks::Outcome| from_tag_tracks(outcome),
            ),
        decreases remaining@.len(),
    {
        let ghost k = lifted@.len() as int;
        let outcome = remaining.remove(0);
        lifted.push(
            match outcome {
                tag_tracks::Outcome::Playback(outcome) => Outcome::Playback(outcome),
                tag_tracks::Outcome::Modal(outcome) => Outcome::Modal(outcome),
                tag_tracks::Outcome::Tag(outcome) => Outcome::Tag(outcome),
            },
        );
        assert(remaining@ =~= given.skip(k + 1));
        assert(lifted@ =~= given.take(k + 1).map_values(
            |outcome: tag_tracks::Outcome| from_tag_tracks(outcome),
        ));
    }
    assert(given.take(given.len() as int) =~= given);
    lifted
}

fn lift_manage_tags(outcomes: Vec<manage_tags::Outcome>) -> (lifted: Vec<Outcome>)
    ensures
        lifted@ == outcomes@.map_values(|outcome: manage_tags::Outcome| from_manage_tags(outcome)),
{
    let ghost given = outcomes@;
    let mut remaining = outcomes;
    let mut lifted: Vec<Outcome> = Vec::new();
    while remaining.len() > 0
        invariant
            lifted@.len() + remaining@.len() == given.len(),
            remaining@ == given.skip(lifted@.len() as int),
            lifted@ == given.take(lifted@.len() as int).map_values(
                |outcome: manage_tags::Outcome| from_manage_tags(outcome),
            ),
        decreases remaining@.len(),
    {
        let ghost k = lifted@.len() as int;
        let outcome = remaining.remove(0);
        lifted.push(
            match outcome {
                manage_tags::Outcome::Modal(outcome) => Outcome::Modal(outcome),
                manage_tags::Outcome::Tag(outcome) => Outcome::Tag(outcome),
            },
        );
        assert(remaining@ =~= given.skip(k + 1));
        assert(lifted@ =~= given.take(k + 1).map_values(
            |outcome: manage_tags::Outcome| from_manage_tags(outcome),
        ));
    }
    assert(given.take(given.len() as int) =~= given);
    lifted
}

fn lift_advanced_search(outcomes: Vec<advanced_search::Outcome>) -> (lifted: Vec<Outcome>)
    ensures
        lifted@ == outcomes@.map_values(
            |outcome: advanced_search::Outcome| from_advanced_search(outcome),
        ),
{
    let ghost given = outcomes@;
    let mut remaining = outcomes;
    let mut lifted: Vec<Outcome> = Vec::new();
    while remaining.len() > 0
        invariant
            lifted@.len() + remaining@.len() == given.len(),
            remaining@ == given.skip(lifted@.len() as int),
            lifted@ == given.take(lifted@.len() as int).map_values(
                |outcome: advanced_search::Outcome| from_advanced_search(outcome),
            ),
        decreases remaining@.len(),
    {
        let ghost k = lifted@.len() as int;
        let outcome = remaining.remove(0);
        lifted.push(
            match outcome {
                advanced_search::Outcome::Modal(outcome) => Outcome::Modal(outcome),
                advanced_search::Outcome::TrackList(outcome) => Outcome::TrackList(outcome),
            },
        );
        assert(remaining@ =~= given.skip(k + 1));
        assert(lifted@ =~= given.take(k + 1).map_values(
            |outcome: advanced_search::Outcome| from_advanced_search(outcome),
        ));
    }
    assert(given.take(given.len() as int) =~= given);
    lifted
}

/// A freshly opened tag tracks modal over `queue`.
pub open spec fn opened_tag_tracks(queue: Seq<TrackId>) -> TagTracksModalView {
    TagTracksModalView {
        queue,
        cursor: 0,
        tag_groups_cursor: 0,
        scrubbing: ScrubbingKeyboardAction { left: false, right: false },
        playback_status: PlaybackStatus::Playing,
    }
}

/// A freshly opened manage tags modal.
pub open spec fn opened_manage_tags() -> ManageTagsModalView {
    ManageTagsModalView {
        selected_tag_group_id: None,
        new_tag_group_name: Seq::empty(),
        new_tag_name: Seq::empty(),
    }
}

/// The messages on which the controller is defined: those that reach the tag
/// tracks modal must be defined for it.
pub open spec fn message_defined(modal: Option<AppModal>, message: Message, tag_groups_len: nat) -> bool {
    match (modal, message) {
        (Some(AppModal::TagTracks(tag_tracks_modal)), Message::Keyboard(event)) => tag_tracks_modal@.keyboard_defined(
            event,
            tag_groups_len,
        ),
        (Some(AppModal::TagTracks(tag_tracks_modal)), Message::TagTracksModal(message)) => tag_tracks_modal@.message_defined(
            message,
            tag_groups_len,
        ),
        _ => true,
    }
}

/// The modal after `message`, with the scrub request and outcomes that it
/// gives: opening and closing replace the modal, and the other messages go to
/// the modal they are for, when it is shown.
pub open spec fn updated(
    before: Option<AppModal>,
    after: Option<AppModal>,
    message: Message,
    tracks: Set<TrackId>,
    tags: Seq<Tag>,
    tag_groups: Seq<TagGroup>,
    status: PlaybackControllerStatus,
    timestamp: u64,
    scrub: Option<KeyboardScrubDirection>,
    outcomes: Seq<Outcome>,
) -> bool {
    let unchanged = after == before && scrub is None && outcomes.len() == 0;
    match message {
        Message::OpenManageTagsModal => scrub is None && outcomes.len() == 0 && match after {
            Some(AppModal::ManageTags(modal)) => modal@ == opened_manage_tags(),
            _ => false,
        },
        Message::OpenTagTracksModal(queue) => scrub is None && outcomes.len() == 0 && match after {
            Some(AppModal::TagTracks(modal)) => modal@ == opened_tag_tracks(queue@),
            _ => false,
        },
        Message::CloseModal => after is None && scrub is None && outcomes.len() == 0,
        Message::Keyboard(event) => match (before, after) {
            (Some(AppModal::TagTracks(modal)), Some(AppModal::TagTracks(changed))) => {
                let step = modal@.keyboard_step(event, tracks, tags, tag_groups, status, timestamp);
                &&& changed@ == step.0
                &&& scrub == step.1
                &&& outcomes == step.2.map_values(|outcome: tag_tracks::Outcome| from_tag_tracks(outcome))
            },
            (Some(AppModal::TagTracks(_)), _) => false,
            _ => unchanged,
        },
        Message::TagTracksModal(message) => match (before, after) {
            (Some(AppModal::TagTracks(modal)), Some(AppModal::TagTracks(changed))) => {
                let step = modal@.update_step(message, tracks, tags, tag_groups, status, timestamp);
                &&& changed@ == step.0
                &&& scrub == step.1
                &&& outcomes == step.2.map_values(|outcome: tag_tracks::Outcome| from_tag_tracks(outcome))
            },
            (Some(AppModal::TagTracks(_)), _) => false,
            _ => unchanged,
        },
        Message::ManageTagsModal(message) => match (before, after) {
            (Some(AppModal::ManageTags(modal)), Some(AppModal::ManageTags(changed))) => {
                &&& scrub is None
                &&& exists|inner: Seq<manage_tags::Outcome>| #[trigger] modal@.updated(changed@, message, inner)
                    && outcomes == inner.map_values(|outcome: manage_tags::Outcome| from_manage_tags(outcome))
            },
            (Some(AppModal::ManageTags(_)), _) => false,
            _ => unchanged,
        },
        Message::AdvancedSearchModal(message) => match (before, after) {
            (Some(AppModal::AdvancedSearch(modal)), Some(AppModal::AdvancedSearch(changed))) => {
                &&& scrub is None
                &&& changed.spec_tag_options() == modal.spec_tag_options()
                &&& exists|inner: Seq<advanced_search::Outcome>| #[trigger] advanced_search::updated(
                    modal.spec_criteria(),
                    changed.spec_criteria(),
                    message,
                    inner,
                ) && outcomes == inner.map_values(
                    |outcome: advanced_search::Outcome| from_advanced_search(outcome),
                )
            },
            (Some(AppModal::AdvancedSearch(_)), _) => false,
            _ => unchanged,
        },
    }
}

impl ModalController {
    /// Handles `message`. `tracks` holds the tracks of the library,
    /// `playback_timestamp` the current playback position in whole frames.
    /// Gives back the direction in which the caller scrubs the playback
    /// position, if any, and the outcomes for the application.
    pub fn update(
        &mut self,
        message: Message,
        tracks: &FxHashSet<TrackId>,
        tags: &[Tag],
        tag_groups: &[TagGroup],
        playback_controller_status: &PlaybackControllerStatus,
        playback_timestamp: u64,
    ) -> (response: (Option<KeyboardScrubDirection>, Vec<Outcome>))
        requires
            message_defined(old(self)@, message, tag_groups@.len()),
        ensures
            updated(
                old(self)@,
                final(self)@,
                message,
                tracks@,
                tags@,
                tag_groups@,
                *playback_controller_status,
                playback_timestamp,
                response.0,
                response.1@,
            ),
    {
        match message {
            Message::OpenManageTagsModal => {
                self.open_manage_tags_modal();
                (None, Vec::new())
            },
            Message::OpenTagTracksModal(track_tagging_queue) => {
                self.open_tag_tracks_modal(track_tagging_queue);
                (None, Vec::new())
            },
            Message::CloseModal => {
                self.modal = None;
                (None, Vec::new())
            },
            Message::Keyboard(event) => match &mut self.modal {
                Some(AppModal::TagTracks(tag_tracks_modal)) => {
                    let (scrub, outcomes) = tag_tracks_modal.update(
                        tag_tracks::Message::Keyboard(event),
                        tracks,
                        tags,
                        tag_groups,
                        playback_controller_status,
                        playback_timestamp,
                    );
                    (scrub, lift_tag_tracks(outcomes))
                },
                _ => (None, Vec::new()),
            },
            Message::TagTracksModal(message) => self.handle_tag_tracks_modal(
                message,
                tracks,
                tags,
                tag_groups,
                playback_controller_status,
                playback_timestamp,
            ),
            Message::ManageTagsModal(message) => (
                None,
                self.handle_manage_tags_modal(message, tags, tag_groups),
            ),
            Message::AdvancedSearchModal(message) => (
                None,
                self.handle_advanced_search_modal(message),
            ),
        }
    }

    /// Passes `message` to the tag tracks modal, if it is shown.
    pub fn handle_tag_tracks_modal(
        &mut self,
        message: tag_tracks::Message,
        tracks: &FxHashSet<TrackId>,
        tags: &[Tag],
        tag_groups: &[TagGroup],
        playback_controller_status: &PlaybackControllerStatus,
        playback_timestamp: u64,
    ) -> (response: (Option<KeyboardScrubDirection>, Vec<Outcome>))
        requires
            message_defined(old(self)@, Message::TagTracksModal(message), tag_groups@.len()),
        ensures
            updated(
                old(self)@,
                final(self)@,
                Message::TagTracksModal(message),
                tracks@,
                tags@,
                tag_groups@,
                *playback_controller_status,
                playback_timestamp,
                response.0,
                response.1@,
            ),
    {
        match &mut self.modal {
            Some(AppModal::TagTracks(tag_tracks_modal)) => {
                let (scrub, outcomes) = tag_tracks_modal.update(
                    message,
                    tracks,
                    tags,
                    tag_groups,
                    playback_controller_status,
                    playback_timestamp,
                );
                (scrub, lift_tag_tracks(outcomes))
            },
            _ => (None, Vec::new()),
        }
    }

    /// Passes `message` to the manage tags modal, if it is shown.
    pub fn handle_manage_tags_modal(
        &mut self,
        message: manage_tags::Message,
        tags: &[Tag],
        tag_groups: &[TagGroup],
    ) -> (outcomes: Vec<Outcome>)
        ensures
            updated(
                old(self)@,
                final(self)@,
                Message::ManageTagsModal(message),
                Set::empty(),
                tags@,
                tag_groups@,
                PlaybackControllerStatus::Stopped,
                0,
                None,
                outcomes@,
            ),
    {
        match &mut self.modal {
            Some(AppModal::ManageTags(manage_tags_modal)) => {
                let outcomes = manage_tags_modal.update(message, tags, tag_groups);
                lift_manage_tags(outcomes)
            },
            _ => Vec::new(),
        }
    }

    /// Passes `message` to the advanced search modal, if it is shown.
    pub fn handle_advanced_search_modal(&mut self, message: advanced_search::Message) -> (outcomes:
        Vec<Outcome>)
        ensures
            updated(
                old(self)@,
                final(self)@,
                Message::AdvancedSearchModal(message),
                Set::empty(),
                Seq::empty(),
                Seq::empty(),
                PlaybackControllerStatus::Stopped,
                0,
                None,
                outcomes@,
            ),
    {
        match &mut self.modal {
            Some(AppModal::AdvancedSearch(advanced_search_modal)) => {
                let outcomes = advanced_search_modal.update(message);
                lift_advanced_search(outcomes)
            },
            _ => Vec::new(),
        }
    }

    /// Shows the tag tracks modal over `track_tagging_queue`.
    pub fn open_tag_tracks_modal(&mut self, track_tagging_queue: Vec<TrackId>)
        ensures
            match final(self)@ {
                Some(AppModal::TagTracks(modal)) => modal@ == opened_tag_tracks(track_tagging_queue@),
                _ => false,
            },
    {
        self.modal = Some(AppModal::TagTracks(TagTracksModal::new(track_tagging_queue)));
    }

    /// Shows the manage tags modal.
    pub fn open_manage_tags_modal(&mut self)
        ensures
            match final(self)@ {
                Some(AppModal::ManageTags(modal)) => modal@ == opened_manage_tags(),
                _ => false,
            },
    {
        self.modal = Some(AppModal::ManageTags(ManageTagsModal::new()));
    }

    /// Shows the advanced search modal, with empty criteria.
    pub fn open_advanced_search_modal(&mut self)
        ensures
            match final(self)@ {
                Some(AppModal::AdvancedSearch(modal)) => modal.spec_criteria().conditions@.len() == 0
                    && modal.spec_tag_options().len() == 0,
                _ => false,
            },
    {
        self.modal = Some(AppModal::AdvancedSearch(AdvancedSearchModal::default()));
    }

    /// Hides the modal.
    pub fn close_modal(&mut self)
        ensures
            final(self)@ is None,
    {
        self.modal = None;
    }

    /// Whether a modal is shown.
    pub fn is_modal_active(&self) -> (active: bool)
        ensures
            active == self@ is Some,
    {
        self.modal.is_some()
    }

    /// Passes a playback event to the modal shown; only the tag tracks modal
    /// follows playback. Tells what becomes of its playback position.
    pub fn on_event(&mut self, event: &Event, current_playback_owner: &PlaybackOwner) -> (update:
        PositionUpdate)
        ensures
            match old(self)@ {
                Some(AppModal::TagTracks(modal)) => match final(self)@ {
                    Some(AppModal::TagTracks(changed)) => (changed@, update) == modal@.event_step(
                        *event,
                        *current_playback_owner,
                    ),
                    _ => false,
                },
                _ => final(self)@ == old(self)@ && update == PositionUpdate::Keep,
            },
    {
        match &mut self.modal {
            Some(AppModal::TagTracks(tag_tracks_modal)) => tag_tracks_modal.on_event(
                event,
                current_playback_owner,
            ),
            _ => PositionUpdate::Keep,
        }
    }
}

impl Default for ModalController {
    /// A controller showing no modal.
    fn default() -> (controller: Self)
        ensures
            controller@ is None,
    {
        ModalController { modal: None }
    }
}

} // verus!
