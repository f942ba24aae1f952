//! The modal in which the user walks through a queue of tracks and tags each
//! one, with keyboard shortcuts for tagging, scrubbing and moving along.
//!
//! The playback position itself is a fractional frame count kept beside the
//! modal by the caller; the modal is told the position in whole frames where
//! it needs it, and tells the caller when the position is to be scrubbed.
use rustc_hash::FxHashSet;
use vstd::prelude::*;

use crate::event::{Event, PlaybackOwner, PositionUpdate};
use crate::fx::set_contains;
use crate::outcome::{ModalOutcome, PlaybackOutcome, TagOutcome};
use crate::playback::controller::PlaybackControllerStatus;
use crate::playback::queue::entry::TrackId;
use crate::tag::models::{Tag, TagGroup, TagId};
use crate::ui::keyboard::{Key, KeyboardEvent, Modifiers};

pub mod tag;

use self::tag::{get_tag_group_tags, get_tag_index, group_tags, tag_key_index};

verus! {

pub struct TagTracksModal {
    track_tagging_queue: Vec<TrackId>,
    track_tagging_queue_cursor: usize,
    tag_groups_cursor: usize,
    scrubbing_keyboard_action: ScrubbingKeyboardAction,
    playback_status: PlaybackStatus,
}

#[derive(Debug)]
pub enum Message {
    GoToPreviousTrack,
    GoToNextTrack,
    SelectTabGroup(usize),
    ToggleTag(TagId),
    Keyboard(KeyboardEvent),
    Play(TrackId),
    Resume,
    Pause,
    Close,
    /// The user dragged the playback position (the caller keeps the new position).
    PlaybackScrubbed,
    /// The user let go of the playback position.
    PlaybackSeeked,
}

#[derive(Debug)]
pub enum Outcome {
    Playback(PlaybackOutcome),
    Modal(ModalOutcome),
    Tag(TagOutcome),
}

#[derive(Debug, Clone, Copy, PartialEq, Eq, Structural)]
pub enum PlaybackStatus {
    Playing,
    Paused,
}

/// The arrow keys held down to scrub playback.
#[derive(Debug, Clone, Copy, PartialEq, Eq, Structural)]
pub struct ScrubbingKeyboardAction {
    pub left: bool,
    pub right: bool,
}

impl Default for ScrubbingKeyboardAction {
    fn default() -> (action: Self)
        ensures
            action == (ScrubbingKeyboardAction { left: false, right: false }),
    {
        ScrubbingKeyboardAction { left: false, right: false }
    }
}

#[derive(Debug, Clone, Copy, PartialEq, Eq, Structural)]
pub enum KeyboardScrubDirection {
    Right,
    Left,
}

/// Mathematical state of the modal.
pub struct TagTracksModalView {
    pub queue: Seq<TrackId>,
    pub cursor: nat,
    pub tag_groups_cursor: nat,
    pub scrubbing: ScrubbingKeyboardAction,
    pub playback_status: PlaybackStatus,
}

impl View for TagTracksModal {
    type V = TagTracksModalView;

    closed spec fn view(&self) -> TagTracksModalView {
        TagTracksModalView {
            queue: self.track_tagging_queue@,
            cursor: self.track_tagging_queue_cursor as nat,
            tag_groups_cursor: self.tag_groups_cursor as nat,
            scrubbing: self.scrubbing_keyboard_action,
            playback_status: self.playback_status,
        }
    }
}

/// The id of the tag that `key` toggles: the tag at the key's position among
/// the tags of the selected tag group.
pub open spec fn tag_for_key(
    tags: Seq<Tag>,
    tag_groups: Seq<TagGroup>,
    tag_groups_cursor: nat,
    key: char,
) -> Option<TagId> {
    match tag_key_index(key) {
        Some(index) => if tag_groups_cursor < tag_groups.len() {
            let group = group_tags(tags, tag_groups[tag_groups_cursor as int].id);
            if index < group.len() {
                Some(group[index].id)
            } else {
                None
            }
        } else {
            None
        },
        None => None,
    }
}

/// The status that playback resumes in after a seek.
pub open spec fn post_seek_status(status: PlaybackStatus) -> PlaybackControllerStatus {
    match status {
        PlaybackStatus::Playing => PlaybackControllerStatus::Playing,
        PlaybackStatus::Paused => PlaybackControllerStatus::Stopped,
    }
}

/// The outcome that plays `track`, if there is one.
pub open spec fn play_outcome(track: Option<TrackId>) -> Option<Outcome> {
    match track {
        Some(track_id) => Some(Outcome::Playback(PlaybackOutcome::Play(track_id))),
        None => None,
    }
}

/// The outcomes of an optional outcome.
pub open spec fn outcome_seq(outcome: Option<Outcome>) -> Seq<Outcome> {
    match outcome {
        Some(outcome) => seq![outcome],
        None => Seq::empty(),
    }
}

impl TagTracksModalView {
    /// The cursor is on a track of the queue, or at zero.
    pub open spec fn cursor_valid(self) -> bool {
        self.cursor == 0 || self.cursor < self.queue.len()
    }

    /// The track under the cursor.
    pub open spec fn current_track(self) -> Option<TrackId> {
        if self.cursor < self.queue.len() {
            Some(self.queue[self.cursor as int])
        } else {
            None
        }
    }

    pub open spec fn with_cursor(self, cursor: nat) -> TagTracksModalView {
        TagTracksModalView { cursor, ..self }
    }

    /// Moving to the next track: nothing at the last track.
    pub open spec fn next_track(self) -> (TagTracksModalView, Option<Outcome>) {
        if self.cursor == self.queue.len() - 1 {
            (self, None)
        } else {
            let moved = self.with_cursor(self.cursor + 1);
            (moved, play_outcome(moved.current_track()))
        }
    }

    /// Moving to the previous track: nothing at the first track.
    pub open spec fn previous_track(self) -> (TagTracksModalView, Option<Outcome>) {
        if self.cursor == 0 {
            (self, None)
        } else {
            let moved = self.with_cursor((self.cursor - 1) as nat);
            (moved, play_outcome(moved.current_track()))
        }
    }

    /// Moving to the first track: nothing when there already.
    pub open spec fn first_track(self) -> (TagTracksModalView, Option<Outcome>) {
        if self.cursor == 0 {
            (self, None)
        } else {
            let moved = self.with_cursor(0);
            (moved, play_outcome(moved.current_track()))
        }
    }

    /// Moving to the last track: nothing when there already.
    pub open spec fn last_track(self) -> (TagTracksModalView, Option<Outcome>) {
        if self.cursor == self.queue.len() - 1 {
            (self, None)
        } else {
            let moved = self.with_cursor((self.queue.len() - 1) as nat);
            (moved, play_outcome(moved.current_track()))
        }
    }

    /// The current track is one of `tracks`, so that it can be scrubbed.
    pub open spec fn scrub_track_known(self, tracks: Set<TrackId>) -> bool {
        match self.current_track() {
            Some(track_id) => tracks.contains(track_id),
            None => false,
        }
    }

    /// Starting to scrub in `direction`: only when the current track is
    /// known; playback pauses if it was playing.
    pub open spec fn scrubbed(
        self,
        direction: KeyboardScrubDirection,
        tracks: Set<TrackId>,
        status: PlaybackControllerStatus,
    ) -> (TagTracksModalView, Option<Outcome>) {
        match self.current_track() {
            Some(track_id) => if tracks.contains(track_id) {
                let scrubbing = match direction {
                    KeyboardScrubDirection::Left => ScrubbingKeyboardAction {
                        left: true,
                        ..self.scrubbing
                    },
                    KeyboardScrubDirection::Right => ScrubbingKeyboardAction {
                        right: true,
                        ..self.scrubbing
                    },
                };
                (
                    TagTracksModalView { scrubbing, ..self },
                    if status == PlaybackControllerStatus::Playing {
                        Some(Outcome::Playback(PlaybackOutcome::Pause))
                    } else {
                        None
                    },
                )
            } else {
                (self, None)
            },
            None => (self, None),
        }
    }

    /// Committing a seek to `timestamp`: only once no arrow key is held.
    pub open spec fn seek_outcome(self, timestamp: u64) -> Option<Outcome> {
        if self.scrubbing.left || self.scrubbing.right {
            None
        } else {
            Some(
                Outcome::Playback(
                    PlaybackOutcome::Seek {
                        timestamp,
                        post_seek_status: Some(post_seek_status(self.playback_status)),
                    },
                ),
            )
        }
    }

    /// The keyboard events on which the modal is defined: cycling the tag
    /// groups needs one, and moving forward needs a track.
    pub open spec fn keyboard_defined(self, event: KeyboardEvent, tag_groups_len: nat) -> bool {
        match event {
            KeyboardEvent::KeyPressed { key, modifiers, repeat } => !repeat ==> match key {
                Key::Tab => (modifiers.is_none() ==> tag_groups_len > 0 && self.tag_groups_cursor
                    + 1 <= usize::MAX) && (modifiers.is_shift() ==> tag_groups_len > 0
                    && tag_groups_len + self.tag_groups_cursor <= usize::MAX),
                Key::Enter => (modifiers.is_none() || modifiers.is_command()) ==> self.queue.len()
                    > 0,
                _ => true,
            },
            _ => true,
        }
    }

    /// The state, scrub request and outcomes after a key press.
    pub open spec fn key_pressed(
        self,
        key: Key,
        modifiers: Modifiers,
        repeat: bool,
        tracks: Set<TrackId>,
        tags: Seq<Tag>,
        tag_groups: Seq<TagGroup>,
        status: PlaybackControllerStatus,
    ) -> (TagTracksModalView, Option<KeyboardScrubDirection>, Seq<Outcome>) {
        let unchanged = (self, None::<KeyboardScrubDirection>, Seq::<Outcome>::empty());
        match key {
            Key::Character(character) => if repeat {
                unchanged
            } else {
                match (self.current_track(), tag_for_key(tags, tag_groups, self.tag_groups_cursor, character)) {
                    (Some(track_id), Some(tag_id)) => (
                        self,
                        None,
                        seq![Outcome::Tag(TagOutcome::ToggleTag(track_id, tag_id))],
                    ),
                    _ => unchanged,
                }
            },
            Key::ArrowRight => {
                let (after, outcome) = self.scrubbed(KeyboardScrubDirection::Right, tracks, status);
                (
                    after,
                    if self.scrub_track_known(tracks) {
                        Some(KeyboardScrubDirection::Right)
                    } else {
                        None
                    },
                    outcome_seq(outcome),
                )
            },
            Key::ArrowLeft => {
                let (after, outcome) = self.scrubbed(KeyboardScrubDirection::Left, tracks, status);
                (
                    after,
                    if self.scrub_track_known(tracks) {
                        Some(KeyboardScrubDirection::Left)
                    } else {
                        None
                    },
                    outcome_seq(outcome),
                )
            },
            Key::Space => if repeat || self.scrubbing.left || self.scrubbing.right {
                unchanged
            } else {
                match self.playback_status {
                    PlaybackStatus::Paused => (
                        TagTracksModalView { playback_status: PlaybackStatus::Playing, ..self },
                        None,
                        seq![Outcome::Playback(PlaybackOutcome::Resume)],
                    ),
                    PlaybackStatus::Playing => (
                        TagTracksModalView { playback_status: PlaybackStatus::Paused, ..self },
                        None,
                        seq![Outcome::Playback(PlaybackOutcome::Pause)],
                    ),
                }
            },
            Key::Tab => if repeat {
                unchanged
            } else if modifiers.is_none() {
                (
                    TagTracksModalView {
                        tag_groups_cursor: (self.tag_groups_cursor + 1) % tag_groups.len(),
                        ..self
                    },
                    None,
                    Seq::empty(),
                )
            } else if modifiers.is_shift() {
                (
                    TagTracksModalView {
                        tag_groups_cursor: ((tag_groups.len() + self.tag_groups_cursor - 1) as nat)
                            % tag_groups.len(),
                        ..self
                    },
                    None,
                    Seq::empty(),
                )
            } else {
                unchanged
            },
            Key::Enter => if repeat {
                unchanged
            } else {
                let moved = if modifiers.is_none() {
                    self.next_track()
                } else if modifiers.is_shift() {
                    self.previous_track()
                } else if modifiers.is_shift_command() {
                    self.first_track()
                } else if modifiers.is_command() {
                    self.last_track()
                } else {
                    (self, None)
                };
                (moved.0, None, outcome_seq(moved.1))
            },
            Key::Escape => if repeat {
                unchanged
            } else {
                (self, None, seq![Outcome::Modal(ModalOutcome::CloseModal)])
            },
            Key::Other => unchanged,
        }
    }

    /// The state, scrub request and outcomes after a key release.
    pub open spec fn key_released(self, key: Key, timestamp: u64) -> (
        TagTracksModalView,
        Option<KeyboardScrubDirection>,
        Seq<Outcome>,
    ) {
        match key {
            Key::ArrowRight => {
                let after = TagTracksModalView {
                    scrubbing: ScrubbingKeyboardAction { right: false, ..self.scrubbing },
                    ..self
                };
                (after, None, outcome_seq(after.seek_outcome(timestamp)))
            },
            Key::ArrowLeft => {
                let after = TagTracksModalView {
                    scrubbing: ScrubbingKeyboardAction { left: false, ..self.scrubbing },
                    ..self
                };
                (after, None, outcome_seq(after.seek_outcome(timestamp)))
            },
            _ => (self, None, Seq::empty()),
        }
    }

    /// The state, scrub request and outcomes after a keyboard event.
    pub open spec fn keyboard_step(
        self,
        event: KeyboardEvent,
        tracks: Set<TrackId>,
        tags: Seq<Tag>,
        tag_groups: Seq<TagGroup>,
        status: PlaybackControllerStatus,
        timestamp: u64,
    ) -> (TagTracksModalView, Option<KeyboardScrubDirection>, Seq<Outcome>) {
        match event {
            KeyboardEvent::KeyPressed { key, modifiers, repeat } => self.key_pressed(
                key,
                modifiers,
                repeat,
                tracks,
                tags,
                tag_groups,
                status,
            ),
            KeyboardEvent::KeyReleased { key, .. } => self.key_released(key, timestamp),
            KeyboardEvent::Other => (self, None, Seq::empty()),
        }
    }
}

impl TagTracksModalView {
    /// The messages on which the modal is defined: moving forward needs a
    /// track, and keyboard events as `keyboard_defined` says.
    pub open spec fn message_defined(self, message: Message, tag_groups_len: nat) -> bool {
        match message {
            Message::GoToNextTrack => self.queue.len() > 0,
            Message::Keyboard(event) => self.keyboard_defined(event, tag_groups_len),
            _ => true,
        }
    }

    /// The state, scrub request and outcomes after a message.
    pub open spec fn update_step(
        self,
        message: Message,
        tracks: Set<TrackId>,
        tags: Seq<Tag>,
        tag_groups: Seq<TagGroup>,
        status: PlaybackControllerStatus,
        timestamp: u64,
    ) -> (TagTracksModalView, Option<KeyboardScrubDirection>, Seq<Outcome>) {
        let unchanged = (self, None::<KeyboardScrubDirection>, Seq::<Outcome>::empty());
        match message {
            Message::Close => (self, None, seq![Outcome::Modal(ModalOutcome::CloseModal)]),
            Message::SelectTabGroup(index) => (
                TagTracksModalView { tag_groups_cursor: index as nat, ..self },
                None,
                Seq::empty(),
            ),
            Message::ToggleTag(tag_id) => match self.current_track() {
                Some(track_id) => (
                    self,
                    None,
                    seq![Outcome::Tag(TagOutcome::ToggleTag(track_id, tag_id))],
                ),
                None => unchanged,
            },
            Message::GoToNextTrack => {
                let moved = self.next_track();
                (moved.0, None, outcome_seq(moved.1))
            },
            Message::GoToPreviousTrack => {
                let moved = self.previous_track();
                (moved.0, None, outcome_seq(moved.1))
            },
            Message::Keyboard(event) => self.keyboard_step(
                event,
                tracks,
                tags,
                tag_groups,
                status,
                timestamp,
            ),
            Message::Resume => (
                TagTracksModalView { playback_status: PlaybackStatus::Playing, ..self },
                None,
                seq![Outcome::Playback(PlaybackOutcome::Resume)],
            ),
            Message::Pause => (
                TagTracksModalView { playback_status: PlaybackStatus::Paused, ..self },
                None,
                seq![Outcome::Playback(PlaybackOutcome::Pause)],
            ),
            Message::Play(track_id) => (
                TagTracksModalView { playback_status: PlaybackStatus::Playing, ..self },
                None,
                seq![Outcome::Playback(PlaybackOutcome::Play(track_id))],
            ),
            Message::PlaybackScrubbed => (
                self,
                None,
                if status == PlaybackControllerStatus::Playing {
                    seq![Outcome::Playback(PlaybackOutcome::Pause)]
                } else {
                    Seq::empty()
                },
            ),
            Message::PlaybackSeeked => (
                self,
                None,
                seq![
                    Outcome::Playback(
                        PlaybackOutcome::Seek {
                            timestamp,
                            post_seek_status: Some(post_seek_status(self.playback_status)),
                        },
                    ),
                ],
            ),
        }
    }
}

impl TagTracksModalView {
    /// The state after a playback event, and what becomes of the playback
    /// position: while the modal owns playback, an attempt to play resumes
    /// the modal's status and resets the position, and progress moves the
    /// position along.
    pub open spec fn event_step(self, event: Event, owner: PlaybackOwner) -> (
        TagTracksModalView,
        PositionUpdate,
    ) {
        if owner != PlaybackOwner::TagTrackModal {
            (self, PositionUpdate::Keep)
        } else {
            match event {
                Event::AttemptedPlayingTrack => (
                    TagTracksModalView { playback_status: PlaybackStatus::Playing, ..self },
                    PositionUpdate::Reset,
                ),
                Event::PlaybackProgressed => (self, PositionUpdate::Follow),
                _ => (self, PositionUpdate::Keep),
            }
        }
    }
}

impl TagTracksModal {
    #[verifier::type_invariant]
    spec fn cursor_in_queue(self) -> bool {
        self@.cursor_valid()
    }

    /// A modal at the first track of `track_tagging_queue`, playing, on the
    /// first tag group.
    pub fn new(track_tagging_queue: Vec<TrackId>) -> (modal: Self)
        ensures
            modal@ == (TagTracksModalView {
                queue: track_tagging_queue@,
                cursor: 0,
                tag_groups_cursor: 0,
                scrubbing: ScrubbingKeyboardAction { left: false, right: false },
                playback_status: PlaybackStatus::Playing,
            }),
    {
        Self {
            track_tagging_queue,
            track_tagging_queue_cursor: 0,
            tag_groups_cursor: 0,
            scrubbing_keyboard_action: ScrubbingKeyboardAction::default(),
            playback_status: PlaybackStatus::Playing,
        }
    }

    fn current_track_id(&self) -> (track: Option<TrackId>)
        ensures
            track == self@.current_track(),
    {
        if self.track_tagging_queue_cursor < self.track_tagging_queue.len() {
            Some(self.track_tagging_queue[self.track_tagging_queue_cursor])
        } else {
            None
        }
    }

    fn play_current(&self) -> (outcome: Option<Outcome>)
        ensures
            outcome == play_outcome(self@.current_track()),
    {
        match self.current_track_id() {
            Some(track_id) => Some(Outcome::Playback(PlaybackOutcome::Play(track_id))),
            None => None,
        }
    }

    /// Moves to the next track and asks to play it; nothing at the last track.
    pub fn go_to_next_track(&mut self) -> (outcome: Option<Outcome>)
        requires
            old(self)@.queue.len() > 0,
        ensures
            (final(self)@, outcome) == old(self)@.next_track(),
    {
        proof {
            use_type_invariant(&*self);
        }
        if self.track_tagging_queue_cursor == self.track_tagging_queue.len() - 1 {
            return None;
        }
        self.track_tagging_queue_cursor = self.track_tagging_queue_cursor + 1;
        self.play_current()
    }

    /// Moves to the previous track and asks to play it; nothing at the first
    /// track.
    pub fn go_to_previous_track(&mut self) -> (outcome: Option<Outcome>)
        ensures
            (final(self)@, outcome) == old(self)@.previous_track(),
    {
        proof {
            use_type_invariant(&*self);
        }
        if self.track_tagging_queue_cursor == 0 {
            return None;
        }
        self.track_tagging_queue_cursor = self.track_tagging_queue_cursor - 1;
        self.play_current()
    }

    /// Moves to the first track and asks to play it; nothing when there
    /// already.
    pub fn go_to_first_track(&mut self) -> (outcome: Option<Outcome>)
        ensures
            (final(self)@, outcome) == old(self)@.first_track(),
    {
        proof {
            use_type_invariant(&*self);
        }
        if self.track_tagging_queue_cursor == 0 {
            return None;
        }
        self.track_tagging_queue_cursor = 0;
        self.play_current()
    }

    /// Moves to the last track and asks to play it; nothing when there
    /// already.
    pub fn go_to_last_track(&mut self) -> (outcome: Option<Outcome>)
        requires
            old(self)@.queue.len() > 0,
        ensures
            (final(self)@, outcome) == old(self)@.last_track(),
    {
        proof {
            use_type_invariant(&*self);
        }
        if self.track_tagging_queue_cursor == self.track_tagging_queue.len() - 1 {
            return None;
        }
        self.track_tagging_queue_cursor = self.track_tagging_queue.len() - 1;
        self.play_current()
    }

    /// Starts scrubbing in `scrub_direction` when the current track is among
    /// `tracks`, and asks to pause a playing track.
    pub fn handle_keyboard_scrub(
        &mut self,
        scrub_direction: KeyboardScrubDirection,
        tracks: &FxHashSet<TrackId>,
        playback_controller_status: &PlaybackControllerStatus,
    ) -> (outcome: Option<Outcome>)
        ensures
            (final(self)@, outcome) == old(self)@.scrubbed(
                scrub_direction,
                tracks@,
                *playback_controller_status,
            ),
    {
        proof {
            use_type_invariant(&*self);
        }
        let track_id = match self.current_track_id() {
            Some(track_id) => track_id,
            None => return None,
        };
        if !set_contains(tracks, track_id) {
            return None;
        }
        match scrub_direction {
            KeyboardScrubDirection::Left => {
                self.scrubbing_keyboard_action.left = true;
            },
            KeyboardScrubDirection::Right => {
                self.scrubbing_keyboard_action.right = true;
            },
        }
        match playback_controller_status {
            PlaybackControllerStatus::Playing => Some(Outcome::Playback(PlaybackOutcome::Pause)),
            PlaybackControllerStatus::Stopped => None,
        }
    }

    fn post_seek_status(&self) -> (status: PlaybackControllerStatus)
        ensures
            status == post_seek_status(self@.playback_status),
    {
        match self.playback_status {
            PlaybackStatus::Playing => PlaybackControllerStatus::Playing,
            PlaybackStatus::Paused => PlaybackControllerStatus::Stopped,
        }
    }

    /// Asks to seek to `timestamp` once no arrow key is held any more.
    pub fn handle_keyboard_seek(&mut self, timestamp: u64) -> (outcome: Option<Outcome>)
        ensures
            final(self)@ == old(self)@,
            outcome == old(self)@.seek_outcome(timestamp),
    {
        if self.scrubbing_keyboard_action.left || self.scrubbing_keyboard_action.right {
            return None;
        }
        Some(
            Outcome::Playback(
                PlaybackOutcome::Seek {
                    timestamp,
                    post_seek_status: Some(self.post_seek_status()),
                },
            ),
        )
    }

    fn push_outcome(outcomes: &mut Vec<Outcome>, outcome: Option<Outcome>)
        ensures
            final(outcomes)@ == old(outcomes)@ + outcome_seq(outcome),
    {
        if let Some(outcome) = outcome {
            outcomes.push(outcome);
        }
    }

    fn handle_keyboard(
        &mut self,
        event: KeyboardEvent,
        tracks: &FxHashSet<TrackId>,
        tags: &[Tag],
        tag_groups: &[TagGroup],
        playback_controller_status: &PlaybackControllerStatus,
        timestamp: u64,
    ) -> (response: (Option<KeyboardScrubDirection>, Vec<Outcome>))
        requires
            old(self)@.keyboard_defined(event, tag_groups@.len()),
        ensures
            (final(self)@, response.0, response.1@) == old(self)@.keyboard_step(
                event,
                tracks@,
                tags@,
                tag_groups@,
                *playback_controller_status,
                timestamp,
            ),
    {
        proof {
            use_type_invariant(&*self);
        }
        let mut outcomes: Vec<Outcome> = Vec::new();
        let mut scrub: Option<KeyboardScrubDirection> = None;
        match event {
            KeyboardEvent::KeyPressed { key, modifiers, repeat } => match key {
                Key::Character(character) => {
                    if !repeat {
                        if let Some(track_id) = self.current_track_id() {
                            if let Some(tag_index) = get_tag_index(&character) {
                                if self.tag_groups_cursor < tag_groups.len() {
                                    let group = get_tag_group_tags(
                                        tags,
                                        tag_groups[self.tag_groups_cursor].id,
                                    );
                                    if tag_index < group.len() {
                                        outcomes.push(
                                            Outcome::Tag(
                                                TagOutcome::ToggleTag(track_id, group[tag_index].id),
                                            ),
                                        );
                                    }
                                }
                            }
                        }
                    }
                },
                Key::ArrowRight | Key::ArrowLeft => {
                    let direction = match key {
                        Key::ArrowRight => KeyboardScrubDirection::Right,
                        _ => KeyboardScrubDirection::Left,
                    };
                    let known = match self.current_track_id() {
                        Some(track_id) => set_contains(tracks, track_id),
                        None => false,
                    };
                    let outcome = self.handle_keyboard_scrub(
                        direction,
                        tracks,
                        playback_controller_status,
                    );
                    Self::push_outcome(&mut outcomes, outcome);
                    if known {
                        scrub = Some(direction);
                    }
                },
                Key::Space => {
                    if !repeat && !self.scrubbing_keyboard_action.left
                        && !self.scrubbing_keyboard_action.right {
                        match self.playback_status {
                            PlaybackStatus::Paused => {
                                self.playback_status = PlaybackStatus::Playing;
                                outcomes.push(Outcome::Playback(PlaybackOutcome::Resume));
                            },
                            PlaybackStatus::Playing => {
                                self.playback_status = PlaybackStatus::Paused;
                                outcomes.push(Outcome::Playback(PlaybackOutcome::Pause));
                            },
                        }
                    }
                },
                Key::Tab => {
                    if !repeat {
                        if !modifiers.shift && !modifiers.command && !modifiers.other {
                            self.tag_groups_cursor = (self.tag_groups_cursor + 1) % tag_groups.len();
                        } else if modifiers.shift && !modifiers.command && !modifiers.other {
                            self.tag_groups_cursor = (tag_groups.len() + self.tag_groups_cursor - 1)
                                % tag_groups.len();
                        }
                    }
                },
                Key::Enter => {
                    if !repeat {
                        let outcome = if !modifiers.shift && !modifiers.command
                            && !modifiers.other {
                            self.go_to_next_track()
                        } else if modifiers.shift && !modifiers.command && !modifiers.other {
                            self.go_to_previous_track()
                        } else if modifiers.shift && modifiers.command && !modifiers.other {
                            self.go_to_first_track()
                        } else if !modifiers.shift && modifiers.command && !modifiers.other {
                            self.go_to_last_track()
                        } else {
                            None
                        };
                        Self::push_outcome(&mut outcomes, outcome);
                    }
                },
                Key::Escape => {
                    if !repeat {
                        outcomes.push(Outcome::Modal(ModalOutcome::CloseModal));
                    }
                },
                Key::Other => {},
            },
            KeyboardEvent::KeyReleased { key, modifiers: _ } => match key {
                Key::ArrowRight => {
                    self.scrubbing_keyboard_action.right = false;
                    let outcome = self.handle_keyboard_seek(timestamp);
                    Self::push_outcome(&mut outcomes, outcome);
                },
                Key::ArrowLeft => {
                    self.scrubbing_keyboard_action.left = false;
                    let outcome = self.handle_keyboard_seek(timestamp);
                    Self::push_outcome(&mut outcomes, outcome);
                },
                _ => {},
            },
            KeyboardEvent::Other => {},
        }
        assert(outcomes@ =~= (old(self)@.keyboard_step(
                event,
                tracks@,
                tags@,
                tag_groups@,
                *playback_controller_status,
                timestamp,
            )).2);
        (scrub, outcomes)
    }

    /// Handles `message`. `tracks` holds the tracks of the library,
    /// `playback_timestamp` the current playback position in whole frames.
    /// Gives back the direction in which the caller scrubs the playback
    /// position, if any, and the outcomes for the application.
    pub fn update(
        &mut self,
        message: Message,
        tracks: &FxHashSet<TrackId>,
        tags: &[Tag],
        tag_groups: &[TagGroup],
        playback_controller_status: &PlaybackControllerStatus,
        playback_timestamp: u64,
    ) -> (response: (Option<KeyboardScrubDirection>, Vec<Outcome>))
        requires
            old(self)@.message_defined(message, tag_groups@.len()),
        ensures
            (final(self)@, response.0, response.1@) == old(self)@.update_step(
                message,
                tracks@,
                tags@,
                tag_groups@,
                *playback_controller_status,
                playback_timestamp,
            ),
    {
        proof {
            use_type_invariant(&*self);
        }
        let mut outcomes: Vec<Outcome> = Vec::new();
        match message {
            Message::Close => outcomes.push(Outcome::Modal(ModalOutcome::CloseModal)),
            Message::SelectTabGroup(tab_group_index) => {
                self.tag_groups_cursor = tab_group_index;
            },
            Message::ToggleTag(tag_id) => {
                if let Some(track_id) = self.current_track_id() {
                    outcomes.push(Outcome::Tag(TagOutcome::ToggleTag(track_id, tag_id)));
                }
            },
            Message::GoToNextTrack => {
                let outcome = self.go_to_next_track();
                Self::push_outcome(&mut outcomes, outcome);
            },
            Message::GoToPreviousTrack => {
                let outcome = self.go_to_previous_track();
                Self::push_outcome(&mut outcomes, outcome);
            },
            Message::Keyboard(event) => {
                return self.handle_keyboard(
                    event,
                    tracks,
                    tags,
                    tag_groups,
                    playback_controller_status,
                    playback_timestamp,
                );
            },
            Message::Resume => {
                self.playback_status = PlaybackStatus::Playing;
                outcomes.push(Outcome::Playback(PlaybackOutcome::Resume));
            },
            Message::Pause => {
                self.playback_status = PlaybackStatus::Paused;
                outcomes.push(Outcome::Playback(PlaybackOutcome::Pause));
            },
            Message::Play(track_id) => {
                self.playback_status = PlaybackStatus::Playing;
                outcomes.push(Outcome::Playback(PlaybackOutcome::Play(track_id)));
            },
            Message::PlaybackScrubbed => {
                if let PlaybackControllerStatus::Playing = playback_controller_status {
                    outcomes.push(Outcome::Playback(PlaybackOutcome::Pause));
                }
            },
            Message::PlaybackSeeked => {
                outcomes.push(
                    Outcome::Playback(
                        PlaybackOutcome::Seek {
                            timestamp: playback_timestamp,
                            post_seek_status: Some(self.post_seek_status()),
                        },
                    ),
                );
            },
        }
        assert(outcomes@ =~= (old(self)@.update_step(
                message,
                tracks@,
                tags@,
                tag_groups@,
                *playback_controller_status,
                playback_timestamp,
            )).2);
        (None, outcomes)
    }

    /// Follows playback events while the modal owns playback: an attempt to
    /// play resumes the modal's status and resets the position, progress moves
    /// the position along. Tells what becomes of the playback position.
    pub fn on_event(&mut self, event: &Event, current_playback_owner: &PlaybackOwner) -> (update:
        PositionUpdate)
        ensures
            (final(self)@, update) == old(self)@.event_step(*event, *current_playback_owner),
    {
        proof {
            use_type_invariant(&*self);
        }
        if let PlaybackOwner::PlaybackBar = current_playback_owner {
            return PositionUpdate::Keep;
        }
        match event {
            Event::AttemptedPlayingTrack => {
                self.playback_status = PlaybackStatus::Playing;
                PositionUpdate::Reset
            },
            Event::PlaybackProgressed => PositionUpdate::Follow,
            _ => PositionUpdate::Keep,
        }
    }
}

} // verus!
