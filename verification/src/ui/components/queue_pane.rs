//! The pane listing the entries of the playback queue.
use rustc_hash::FxHashSet;
use vstd::prelude::*;

use crate::event::Event;
use crate::playback::queue::entry::PlaybackQueueEntry;

verus! {

#[derive(Debug)]
pub struct QueuePane {
    queue_entries: Vec<PlaybackQueueEntry>,
    selected_entries: FxHashSet<PlaybackQueueEntry>,
}

#[derive(Debug, Clone, Copy, PartialEq, Eq, Structural)]
pub enum QueueTableColumn {
    NowPlaying,
    TrackNumber,
    Title,
    Artist,
}

#[derive(Debug)]
pub enum Message {
    TrackRowDoubleClicked(PlaybackQueueEntry),
    TrackRowSelected(FxHashSet<PlaybackQueueEntry>),
}

/// Mathematical state of the pane.
pub struct QueuePaneView {
    pub queue_entries: Seq<PlaybackQueueEntry>,
    pub selected_entries: Set<PlaybackQueueEntry>,
}

impl View for QueuePane {
    type V = QueuePaneView;

    closed spec fn view(&self) -> QueuePaneView {
        QueuePaneView {
            queue_entries: self.queue_entries@,
            selected_entries: self.selected_entries@,
        }
    }
}

impl QueuePane {
    /// Handles `message`: a selection replaces the selected entries.
    pub fn update(&mut self, message: Message)
        ensures
            match message {
                Message::TrackRowSelected(selected_entries) => final(self)@ == (QueuePaneView {
                    selected_entries: selected_entries@,
                    ..old(self)@
                }),
                Message::TrackRowDoubleClicked(_) => final(self)@ == old(self)@,
            },
    {
        match message {
            Message::TrackRowDoubleClicked(_queue_entry) => {},
            Message::TrackRowSelected(selected_entries) => {
                self.selected_entries = selected_entries;
            },
        }
    }

    /// Follows the entries of the queue as they change.
    pub fn on_event(&mut self, event: &Event)
        ensures
            match *event {
                Event::QueueChanged(queue_entries) => final(self)@ == (QueuePaneView {
                    queue_entries: queue_entries@,
                    ..old(self)@
                }),
                _ => final(self)@ == old(self)@,
            },
    {
        if let Event::QueueChanged(queue_entries) = event {
            self.queue_entries = queue_entries.clone();
        }
    }

    /// The entries shown.
    pub fn queue_entries(&self) -> (entries: &[PlaybackQueueEntry])
        ensures
            entries@ == self@.queue_entries,
    {
        self.queue_entries.as_slice()
    }
}

impl Default for QueuePane {
    /// A pane showing no entries, with none selected.
    fn default() -> (pane: Self)
        ensures
            pane@.queue_entries.len() == 0,
            pane@.selected_entries.is_empty(),
    {
        let pane = QueuePane { queue_entries: Vec::new(), selected_entries: FxHashSet::default() };
        assert(pane@.selected_entries =~= Set::empty());
        pane
    }
}

} // verus!
