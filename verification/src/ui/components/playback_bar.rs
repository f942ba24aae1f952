//! The bar at the bottom of the window that controls playback.
//!
//! The playback position is a fractional frame count kept beside the bar by
//! the caller; the bar is told the position in whole frames when it seeks.
use vstd::prelude::*;

use crate::event::{Event, PlaybackOwner, PositionUpdate};
use crate::outcome::PlaybackOutcome;
use crate::playback::controller::PlaybackControllerStatus;
use crate::playback::queue::entry::TrackId;

verus! {

#[derive(Debug)]
pub struct PlaybackBar {
    pub playing_track_id: Option<TrackId>,
    pub status: PlaybackBarStatus,
    pub volume_percentage: u8,
    pub muted: bool,
}

#[derive(Debug, Clone, Copy, PartialEq, Eq, Structural)]
pub enum PlaybackBarStatus {
    Playing,
    Paused,
}

#[derive(Debug, Clone, Copy, PartialEq, Eq, Structural)]
pub enum Message {
    Pause,
    Resume,
    PlayNext,
    PlayPrevious,
    /// The user dragged the playback position (the caller keeps the new position).
    Scrubbed,
    /// The user let go of the playback position.
    Seeked,
    ChangeVolumePercentage(u8),
    MutePlayback,
    CycleRepeatMode,
    CycleQueueOrder,
}

#[derive(Debug)]
pub enum Outcome {
    Playback(PlaybackOutcome),
}

/// The status that playback resumes in after a seek.
pub open spec fn post_seek_status(status: PlaybackBarStatus) -> PlaybackControllerStatus {
    match status {
        PlaybackBarStatus::Playing => PlaybackControllerStatus::Playing,
        PlaybackBarStatus::Paused => PlaybackControllerStatus::Stopped,
    }
}

impl PlaybackBar {
    /// The bar after `message`, and the outcomes that it gives;
    /// `timestamp` is the playback position in whole frames.
    pub open spec fn update_step(
        self,
        message: Message,
        status: PlaybackControllerStatus,
        timestamp: u64,
    ) -> (PlaybackBar, Seq<Outcome>) {
        match message {
            Message::Scrubbed => (
                self,
                if status == PlaybackControllerStatus::Playing {
                    seq![Outcome::Playback(PlaybackOutcome::Pause)]
                } else {
                    Seq::empty()
                },
            ),
            Message::Seeked => (
                self,
                seq![
                    Outcome::Playback(
                        PlaybackOutcome::Seek {
                            timestamp,
                            post_seek_status: Some(post_seek_status(self.status)),
                        },
                    ),
                ],
            ),
            Message::Resume => if self.playing_track_id is Some {
                (
                    PlaybackBar { status: PlaybackBarStatus::Playing, ..self },
                    seq![Outcome::Playback(PlaybackOutcome::Resume)],
                )
            } else {
                (self, Seq::empty())
            },
            Message::Pause => if self.playing_track_id is Some {
                (
                    PlaybackBar { status: PlaybackBarStatus::Paused, ..self },
                    seq![Outcome::Playback(PlaybackOutcome::Pause)],
                )
            } else {
                (self, Seq::empty())
            },
            Message::PlayNext => (self, seq![Outcome::Playback(PlaybackOutcome::PlayNext)]),
            Message::PlayPrevious => (self, seq![Outcome::Playback(PlaybackOutcome::PlayPrevious)]),
            Message::ChangeVolumePercentage(volume_percentage) => (
                PlaybackBar { volume_percentage, ..self },
                seq![Outcome::Playback(PlaybackOutcome::SetVolumePercentage(volume_percentage))],
            ),
            Message::MutePlayback => {
                let muted = !self.muted;
                (
                    PlaybackBar { muted, ..self },
                    seq![
                        Outcome::Playback(
                            PlaybackOutcome::SetVolumePercentage(
                                if muted {
                                    0
                                } else {
                                    self.volume_percentage
                                },
                            ),
                        ),
                    ],
                )
            },
            Message::CycleRepeatMode => (
                self,
                seq![Outcome::Playback(PlaybackOutcome::CycleRepeatMode)],
            ),
            Message::CycleQueueOrder => (self, seq![Outcome::Playback(PlaybackOutcome::CycleOrder)]),
        }
    }

    /// A bar playing nothing, at half volume, not muted.
    pub fn new() -> (bar: Self)
        ensures
            bar == (PlaybackBar {
                playing_track_id: None,
                status: PlaybackBarStatus::Playing,
                volume_percentage: 50,
                muted: false,
            }),
    {
        Self {
            status: PlaybackBarStatus::Playing,
            playing_track_id: None,
            muted: false,
            volume_percentage: 50,
        }
    }

    /// Handles `message`; `playback_timestamp` is the playback position in
    /// whole frames.
    pub fn update(
        &mut self,
        message: Message,
        playback_controller_status: &PlaybackControllerStatus,
        playback_timestamp: u64,
    ) -> (outcomes: Vec<Outcome>)
        ensures
            (*final(self), outcomes@) == old(self).update_step(
                message,
                *playback_controller_status,
                playback_timestamp,
            ),
    {
        let mut outcomes: Vec<Outcome> = Vec::new();
        match message {
            Message::Scrubbed => {
                if let PlaybackControllerStatus::Playing = playback_controller_status {
                    outcomes.push(Outcome::Playback(PlaybackOutcome::Pause));
                }
            },
            Message::Seeked => {
                let pre_seek_status = match self.status {
                    PlaybackBarStatus::Playing => PlaybackControllerStatus::Playing,
                    PlaybackBarStatus::Paused => PlaybackControllerStatus::Stopped,
                };
                outcomes.push(
                    Outcome::Playback(
                        PlaybackOutcome::Seek {
                            timestamp: playback_timestamp,
                            post_seek_status: Some(pre_seek_status),
                        },
                    ),
                );
            },
            Message::Resume => {
                if self.playing_track_id.is_some() {
                    self.status = PlaybackBarStatus::Playing;
                    outcomes.push(Outcome::Playback(PlaybackOutcome::Resume));
                }
            },
            Message::Pause => {
                if self.playing_track_id.is_some() {
                    self.status = PlaybackBarStatus::Paused;
                    outcomes.push(Outcome::Playback(PlaybackOutcome::Pause));
                }
            },
            Message::PlayNext => outcomes.push(Outcome::Playback(PlaybackOutcome::PlayNext)),
            Message::PlayPrevious => {
                outcomes.push(Outcome::Playback(PlaybackOutcome::PlayPrevious));
            },
            Message::ChangeVolumePercentage(volume_percentage) => {
                self.volume_percentage = volume_percentage;
                outcomes.push(
                    Outcome::Playback(PlaybackOutcome::SetVolumePercentage(volume_percentage)),
                );
            },
            Message::MutePlayback => {
                self.muted = !self.muted;
                outcomes.push(
                    Outcome::Playback(
                        PlaybackOutcome::SetVolumePercentage(
                            if self.muted {
                                0
                            } else {
                                self.volume_percentage
                            },
                        ),
                    ),
                );
            },
            Message::CycleRepeatMode => {
                outcomes.push(Outcome::Playback(PlaybackOutcome::CycleRepeatMode));
            },
            Message::CycleQueueOrder => {
                outcomes.push(Outcome::Playback(PlaybackOutcome::CycleOrder));
            },
        }
        assert(outcomes@ =~= old(self).update_step(
            message,
            *playback_controller_status,
            playback_timestamp,
        ).1);
        outcomes
    }

    /// Follows playback events while the bar owns playback: an attempt to play
    /// sets the bar playing and resets the position, progress moves the
    /// position along, and a change of track is noted. Tells what becomes of
    /// the playback position.
    pub fn on_event(&mut self, event: &Event, playback_owner: &PlaybackOwner) -> (update:
        PositionUpdate)
        ensures
            *playback_owner != PlaybackOwner::PlaybackBar ==> update == PositionUpdate::Keep
                && *final(self) == *old(self),
            *playback_owner == PlaybackOwner::PlaybackBar ==> match *event {
                Event::AttemptedPlayingTrack => update == PositionUpdate::Reset && *final(self) == (
                PlaybackBar { status: PlaybackBarStatus::Playing, ..*old(self) }),
                Event::PlaybackProgressed => update == PositionUpdate::Follow && *final(self)
                    == *old(self),
                Event::ActiveTrackChanged(track_id) => update == PositionUpdate::Keep && *final(self)
                    == (PlaybackBar { playing_track_id: track_id, ..*old(self) }),
                _ => update == PositionUpdate::Keep && *final(self) == *old(self),
            },
    {
        if let PlaybackOwner::TagTrackModal = playback_owner {
            return PositionUpdate::Keep;
        }
        match event {
            Event::AttemptedPlayingTrack => {
                self.status = PlaybackBarStatus::Playing;
                PositionUpdate::Reset
            },
            Event::PlaybackProgressed => PositionUpdate::Follow,
            Event::ActiveTrackChanged(track_id) => {
                self.playing_track_id = *track_id;
                PositionUpdate::Keep
            },
            _ => PositionUpdate::Keep,
        }
    }
}

impl Default for PlaybackBar {
    fn default() -> (bar: Self)
        ensures
            bar == (PlaybackBar {
                playing_track_id: None,
                status: PlaybackBarStatus::Playing,
                volume_percentage: 50,
                muted: false,
            }),
    {
        Self::new()
    }
}

} // verus!
