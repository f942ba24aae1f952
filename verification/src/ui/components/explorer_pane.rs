//! The pane listing the main library and the tags, by tag group.
use rustc_hash::FxHashSet;
use vstd::prelude::*;

use crate::fx::{set_contains, set_insert, set_remove};
use crate::outcome::TrackListOutcome;
use crate::tag::models::{TagGroupId, TagId};

verus! {

#[derive(Debug)]
pub struct ExplorerPane {
    tag_groups_expanded: FxHashSet<TagGroupId>,
}

#[derive(Debug, Clone, Copy, PartialEq, Eq, Structural)]
pub enum Message {
    SelectedMainLibrary,
    SelectedTag(TagId),
    ToggleTagGroup(TagGroupId),
}

#[derive(Debug)]
pub enum Outcome {
    TrackList(TrackListOutcome),
}

/// `expanded` with `tag_group_id` collapsed if it was expanded, expanded
/// otherwise.
pub open spec fn toggled(expanded: Set<TagGroupId>, tag_group_id: TagGroupId) -> Set<TagGroupId> {
    if expanded.contains(tag_group_id) {
        expanded.remove(tag_group_id)
    } else {
        expanded.insert(tag_group_id)
    }
}

impl View for ExplorerPane {
    type V = Set<TagGroupId>;

    /// The expanded tag groups.
    closed spec fn view(&self) -> Set<TagGroupId> {
        self.tag_groups_expanded@
    }
}

impl ExplorerPane {
    /// Handles `message`: selecting the library or a tag asks to display its
    /// tracks; toggling a tag group expands or collapses it.
    pub fn update(&mut self, message: Message) -> (outcomes: Vec<Outcome>)
        ensures
            match message {
                Message::SelectedMainLibrary => final(self)@ == old(self)@ && outcomes@ == seq![
                    Outcome::TrackList(TrackListOutcome::DisplayMainLibraryTrackList),
                ],
                Message::SelectedTag(tag_id) => final(self)@ == old(self)@ && outcomes@ == seq![
                    Outcome::TrackList(TrackListOutcome::DisplayTagTrackList(tag_id)),
                ],
                Message::ToggleTagGroup(tag_group_id) => outcomes@.len() == 0 && final(self)@
                    == toggled(old(self)@, tag_group_id),
            },
    {
        let mut outcomes: Vec<Outcome> = Vec::new();
        match message {
            Message::SelectedMainLibrary => {
                outcomes.push(Outcome::TrackList(TrackListOutcome::DisplayMainLibraryTrackList));
            },
            Message::SelectedTag(tag_id) => {
                outcomes.push(Outcome::TrackList(TrackListOutcome::DisplayTagTrackList(tag_id)));
            },
            Message::ToggleTagGroup(tag_group_id) => {
                if set_contains(&self.tag_groups_expanded, tag_group_id) {
                    set_remove(&mut self.tag_groups_expanded, tag_group_id);
                } else {
                    set_insert(&mut self.tag_groups_expanded, tag_group_id);
                }
            },
        }
        outcomes
    }

    /// Whether the tag group `tag_group_id` is expanded.
    pub fn is_tag_group_expanded(&self, tag_group_id: TagGroupId) -> (expanded: bool)
        ensures
            expanded == self@.contains(tag_group_id),
    {
        set_contains(&self.tag_groups_expanded, tag_group_id)
    }
}

impl Default for ExplorerPane {
    /// A pane with every tag group collapsed.
    fn default() -> (pane: Self)
        ensures
            pane@.is_empty(),
    {
        let pane = ExplorerPane { tag_groups_expanded: FxHashSet::default() };
        assert(pane@ =~= Set::empty());
        pane
    }
}

} // verus!
