//! Laws of the components: what one message undoes of another.
use vstd::prelude::*;

use crate::search::models::{SearchConditionGroup, removed_at};
use crate::tag::models::TagGroupId;
use crate::ui::components::explorer_pane::toggled;
use crate::ui::modals::advanced_search::with_new_statement;
use crate::outcome::TagOutcome;
use crate::playback::controller::PlaybackControllerStatus;
use crate::playback::queue::entry::TrackId;
use crate::tag::models::{Tag, TagGroup};
use crate::ui::keyboard::{Key, KeyboardEvent, Modifiers};
use crate::ui::modals::tag_tracks::tag::{group_tags, law_tag_key_stands_for_its_position, tag_keys};
use crate::ui::modals::tag_tracks::{
    KeyboardScrubDirection, Outcome, TagTracksModalView, play_outcome,
};

verus! {

/// Toggling a tag group twice leaves the expanded tag groups as they were.
pub proof fn law_toggle_tag_group_twice_restores(expanded: Set<TagGroupId>, tag_group_id: TagGroupId)
    ensures
        toggled(toggled(expanded, tag_group_id), tag_group_id) == expanded,
{
    if expanded.contains(tag_group_id) {
        assert(toggled(toggled(expanded, tag_group_id), tag_group_id) =~= expanded);
    } else {
        assert(toggled(toggled(expanded, tag_group_id), tag_group_id) =~= expanded);
    }
}

/// In the tag tracks modal, going back after going to the next track returns
/// to the track one started from, and asks to play it again.
pub proof fn law_previous_track_undoes_next_track(view: TagTracksModalView)
    requires
        view.cursor + 1 < view.queue.len(),
    ensures
        ({
            let forward = view.next_track().0;
            let (back, outcome) = forward.previous_track();
            &&& back == view
            &&& outcome == play_outcome(view.current_track())
        }),
{
}

/// Removing the statement that was just added at the end of the criteria
/// gives back the criteria one started from.
pub proof fn law_remove_undoes_add_condition(
    before: SearchConditionGroup,
    added: SearchConditionGroup,
    removed: SearchConditionGroup,
)
    requires
        with_new_statement(before, added),
        removed_at(added, removed, seq![before.conditions@.len() as usize]),
        before.conditions@.len() < usize::MAX,
    ensures
        removed.operator == before.operator,
        removed.conditions@ == before.conditions@,
{
    assert(added.conditions@.remove(before.conditions@.len() as int) =~= before.conditions@);
}

/// In the tag tracks modal, pressing the `i`-th tag key toggles, on the
/// current track, the `i`-th tag of the selected tag group, whatever
/// modifiers are held.
pub proof fn law_tag_key_toggles_tag_at_its_position(
    view: TagTracksModalView,
    i: int,
    modifiers: Modifiers,
    tracks: Set<TrackId>,
    tags: Seq<Tag>,
    tag_groups: Seq<TagGroup>,
    status: PlaybackControllerStatus,
    timestamp: u64,
)
    requires
        0 <= i < tag_keys().len(),
        view.current_track() is Some,
        view.tag_groups_cursor < tag_groups.len(),
        i < group_tags(tags, tag_groups[view.tag_groups_cursor as int].id).len(),
    ensures
        view.keyboard_step(
            KeyboardEvent::KeyPressed { key: Key::Character(tag_keys()[i]), modifiers, repeat: false },
            tracks,
            tags,
            tag_groups,
            status,
            timestamp,
        ) == (
            view,
            None::<KeyboardScrubDirection>,
            seq![
                Outcome::Tag(
                    TagOutcome::ToggleTag(
                        view.current_track().unwrap(),
                        group_tags(tags, tag_groups[view.tag_groups_cursor as int].id)[i].id,
                    ),
                ),
            ],
        ),
{
    law_tag_key_stands_for_its_position(i);
}

} // verus!
