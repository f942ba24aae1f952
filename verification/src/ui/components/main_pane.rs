//! The pane listing the displayed tracks.
use rustc_hash::FxHashSet;
use vstd::prelude::*;

use crate::fx::set_contains;
use crate::outcome::{ModalOutcome, PlaybackOutcome};
use crate::playback::queue::entry::TrackId;

verus! {

#[derive(Debug)]
pub struct MainPane {
    pub selected_track_ids: FxHashSet<i64>,
}

#[derive(Debug)]
pub enum Message {
    TrackRowDoubleClicked(TrackId),
    TrackRowSelected(FxHashSet<TrackId>),
    ColumnHeaderCellClicked(TrackTableColumn),
    QueueNext,
    TagSelection,
}

#[derive(Debug, Clone, Copy, PartialEq, Eq, Structural)]
pub enum TrackTableColumn {
    NowPlaying,
    Title,
    Artist,
    Duration,
}

#[derive(Debug)]
pub enum Outcome {
    Playback(PlaybackOutcome),
    Modal(ModalOutcome),
}

#[derive(Debug)]
pub struct MainPaneUpdateContext {}

/// The tracks of `displayed` that are in `selected`, in display order.
pub open spec fn selected_tracks(displayed: Seq<TrackId>, selected: Set<TrackId>) -> Seq<TrackId>
    decreases displayed.len(),
{
    if displayed.len() == 0 {
        Seq::empty()
    } else {
        let rest = selected_tracks(displayed.drop_last(), selected);
        if selected.contains(displayed.last()) {
            rest.push(displayed.last())
        } else {
            rest
        }
    }
}

/// The selected tracks, in the order of `displayed_track_ids`.
fn selected_in_display_order(
    displayed_track_ids: &Vec<TrackId>,
    selected_track_ids: &FxHashSet<TrackId>,
) -> (selected: Vec<TrackId>)
    ensures
        selected@ == selected_tracks(displayed_track_ids@, selected_track_ids@),
{
    let mut selected: Vec<TrackId> = Vec::new();
    let mut i: usize = 0;
    while i < displayed_track_ids.len()
        invariant
            i <= displayed_track_ids@.len(),
            selected@ == selected_tracks(displayed_track_ids@.take(i as int), selected_track_ids@),
        decreases displayed_track_ids@.len() - i,
    {
        assert(displayed_track_ids@.take(i + 1).drop_last() =~= displayed_track_ids@.take(i as int));
        let track_id = displayed_track_ids[i];
        if set_contains(selected_track_ids, track_id) {
            selected.push(track_id);
        }
        i += 1;
    }
    assert(displayed_track_ids@.take(displayed_track_ids@.len() as int) =~= displayed_track_ids@);
    selected
}

impl MainPane {
    /// Handles `message`: a double click starts the queue from the track, a
    /// selection replaces the selected tracks, and queueing or tagging the
    /// selection asks for it in display order when something is selected.
    pub fn update(&mut self, message: Message, displayed_track_ids: &Vec<TrackId>) -> (outcomes:
        Vec<Outcome>)
        ensures
            match message {
                Message::TrackRowDoubleClicked(track_id) => final(self).selected_track_ids@ == old(
                    self,
                ).selected_track_ids@ && outcomes@ == seq![
                    Outcome::Playback(PlaybackOutcome::StartQueue(track_id)),
                ],
                Message::TrackRowSelected(selected_track_ids) => final(self).selected_track_ids@
                    == selected_track_ids@ && outcomes@.len() == 0,
                Message::ColumnHeaderCellClicked(_) => final(self).selected_track_ids@ == old(
                    self,
                ).selected_track_ids@ && outcomes@.len() == 0,
                Message::QueueNext => final(self).selected_track_ids@ == old(
                    self,
                ).selected_track_ids@ && if old(self).selected_track_ids@.is_empty() {
                    outcomes@.len() == 0
                } else {
                    outcomes@.len() == 1 && match outcomes@[0] {
                        Outcome::Playback(PlaybackOutcome::QueueNext(queued)) => queued@
                            == selected_tracks(displayed_track_ids@, old(self).selected_track_ids@),
                        _ => false,
                    }
                },
                Message::TagSelection => final(self).selected_track_ids@ == old(
                    self,
                ).selected_track_ids@ && if old(self).selected_track_ids@.is_empty() {
                    outcomes@.len() == 0
                } else {
                    outcomes@.len() == 1 && match outcomes@[0] {
                        Outcome::Modal(ModalOutcome::OpenTagTracksModal(queue)) => queue@
                            == selected_tracks(displayed_track_ids@, old(self).selected_track_ids@),
                        _ => false,
                    }
                },
            },
    {
        let mut outcomes: Vec<Outcome> = Vec::new();
        match message {
            Message::TrackRowDoubleClicked(track_id) => {
                outcomes.push(Outcome::Playback(PlaybackOutcome::StartQueue(track_id)));
            },
            Message::TrackRowSelected(selected_track_ids) => {
                self.selected_track_ids = selected_track_ids;
            },
            Message::ColumnHeaderCellClicked(_column_id) => {},
            Message::QueueNext => {
                if !self.selected_track_ids.is_empty() {
                    let queued_track_ids = selected_in_display_order(
                        displayed_track_ids,
                        &self.selected_track_ids,
                    );
                    outcomes.push(Outcome::Playback(PlaybackOutcome::QueueNext(queued_track_ids)));
                }
            },
            Message::TagSelection => {
                if !self.selected_track_ids.is_empty() {
                    let track_tagging_queue = selected_in_display_order(
                        displayed_track_ids,
                        &self.selected_track_ids,
                    );
                    outcomes.push(
                        Outcome::Modal(ModalOutcome::OpenTagTracksModal(track_tagging_queue)),
                    );
                }
            },
        }
        outcomes
    }
}

impl Default for MainPane {
    fn default() -> (pane: Self)
        ensures
            pane.selected_track_ids@.is_empty(),
    {
        let pane = MainPane { selected_track_ids: FxHashSet::default() };
        assert(pane.selected_track_ids@ =~= Set::empty());
        pane
    }
}

} // verus!
