//! Laws of the track tag index: toggling flips exactly one track tag, keeps
//! both directions of the index in agreement, and undoes itself.
use vstd::prelude::*;

use crate::playback::queue::entry::TrackId;
use crate::tag::index::{indexed, without_first, TrackTagIndexView};
use crate::tag::models::{TagId, TrackTag};
use crate::util::{first_index, is_first_index};

verus! {

impl TrackTagIndexView {
    /// Both directions of the index agree, no track lists a tag twice, and no
    /// entry is left empty.
    pub open spec fn consistent(self) -> bool {
        &&& forall|track_id: TrackId, tag_id: TagId|
            #![trigger self.has(track_id, tag_id)]
            #![trigger self.tags_of(track_id).contains(tag_id)]
            self.has(track_id, tag_id) <==> self.tags_of(track_id).contains(tag_id)
        &&& forall|track_id: TrackId| #[trigger]
            self.tags_by_track.contains_key(track_id) ==> self.tags_by_track[track_id].no_duplicates()
                && self.tags_by_track[track_id].len() > 0
        &&& forall|tag_id: TagId| #[trigger]
            self.tracks_by_tag.contains_key(tag_id) ==> !self.tracks_by_tag[tag_id].is_empty()
    }
}

pub proof fn lemma_remove_unique(tags: Seq<TagId>, i: int)
    requires
        tags.no_duplicates(),
        0 <= i < tags.len(),
    ensures
        tags.remove(i).no_duplicates(),
        forall|x: TagId| #[trigger]
            tags.remove(i).contains(x) <==> (tags.contains(x) && x != tags[i]),
{
    let removed = tags.remove(i);
    assert forall|x: TagId| #[trigger] removed.contains(x) <==> (tags.contains(x) && x != tags[i]) by {
        if removed.contains(x) {
            let k = choose|k: int| 0 <= k < removed.len() && removed[k] == x;
            if k < i {
                assert(tags[k] == x);
            } else {
                assert(tags[k + 1] == x);
            }
        }
        if tags.contains(x) && x != tags[i] {
            let k = choose|k: int| 0 <= k < tags.len() && tags[k] == x;
            if k < i {
                assert(removed[k] == x);
            } else {
                assert(removed[k - 1] == x);
            }
        }
    }
}

/// Toggling a track tag flips whether the track carries that tag and leaves
/// every other track tag as it was.
pub proof fn law_toggle_flips_one_track_tag(
    index: TrackTagIndexView,
    track_id: TrackId,
    tag_id: TagId,
)
    ensures
        index.toggled(track_id, tag_id).has(track_id, tag_id) == !index.has(track_id, tag_id),
        forall|other_track: TrackId, other_tag: TagId|
            (other_track != track_id || other_tag != tag_id) ==> #[trigger] index.toggled(
                track_id,
                tag_id,
            ).has(other_track, other_tag) == index.has(other_track, other_tag),
{
}

/// Toggling a track tag keeps a consistent index consistent.
pub proof fn law_toggle_keeps_consistency(index: TrackTagIndexView, track_id: TrackId, tag_id: TagId)
    requires
        index.consistent(),
    ensures
        index.toggled(track_id, tag_id).consistent(),
{
    if index.has(track_id, tag_id) {
        let after = index.untagged(track_id, tag_id);
        let tags = index.tags_by_track[track_id];
        assert(index.tags_of(track_id).contains(tag_id));
        let position = first_index(tags, tag_id);
        let k = choose|k: int| 0 <= k < tags.len() && tags[k] == tag_id;
        assert(is_first_index(tags, tag_id, k)) by {
            assert forall|j: int| 0 <= j < k implies tags[j] != tag_id by {
                if tags[j] == tag_id {
                    assert(tags.no_duplicates());
                }
            }
        }
        assert(is_first_index(tags, tag_id, position));
        lemma_remove_unique(tags, position);
        assert(without_first(tags, tag_id) == tags.remove(position));
        assert forall|a: TrackId, b: TagId| #![trigger after.has(a, b)] #![trigger after.tags_of(a).contains(b)]
            after.has(a, b) <==> after.tags_of(a).contains(b) by {
            assert(index.has(a, b) <==> index.tags_of(a).contains(b));
        }
    } else {
        let after = index.tagged(track_id, tag_id);
        assert(!index.tags_of(track_id).contains(tag_id));
        assert forall|a: TrackId, b: TagId| #![trigger after.has(a, b)] #![trigger after.tags_of(a).contains(b)]
            after.has(a, b) <==> after.tags_of(a).contains(b) by {
            assert(index.has(a, b) <==> index.tags_of(a).contains(b));
            if a == track_id {
                assert(after.tags_of(a) == index.tags_of(a).push(tag_id));
                assert(after.tags_of(a).contains(b) <==> (index.tags_of(a).contains(b) || b == tag_id))
                    by {
                    if after.tags_of(a).contains(b) && b != tag_id {
                        let k = choose|k: int| 0 <= k < after.tags_of(a).len() && after.tags_of(a)[k] == b;
                        assert(index.tags_of(a)[k] == b);
                    }
                    if index.tags_of(a).contains(b) {
                        let k = choose|k: int| 0 <= k < index.tags_of(a).len() && index.tags_of(a)[k] == b;
                        assert(after.tags_of(a)[k] == b);
                    }
                    if b == tag_id {
                        assert(after.tags_of(a)[index.tags_of(a).len() as int] == b);
                    }
                }
            }
        }
        assert forall|a: TrackId| #[trigger] after.tags_by_track.contains_key(a) implies after.tags_by_track[a].no_duplicates()
            && after.tags_by_track[a].len() > 0 by {
            if a == track_id {
                let tags = index.tags_of(a);
                assert(tags.no_duplicates());
                assert forall|i: int, j: int| 0 <= i < j < tags.push(tag_id).len() implies tags.push(tag_id)[i]
                    != tags.push(tag_id)[j] by {
                    if j == tags.len() {
                        assert(tags[i] == tags.push(tag_id)[i]);
                    }
                }
            }
        }
    }
}

/// Toggling a track tag that the track does not carry, and toggling it again,
/// gives back the index one started from.
pub proof fn law_toggle_twice_restores(index: TrackTagIndexView, track_id: TrackId, tag_id: TagId)
    requires
        index.consistent(),
        !index.has(track_id, tag_id),
    ensures
        index.toggled(track_id, tag_id).toggled(track_id, tag_id) == index,
{
    let once = index.tagged(track_id, tag_id);
    assert(once.has(track_id, tag_id));
    let twice = once.untagged(track_id, tag_id);
    let tags = index.tags_of(track_id);
    assert(!tags.contains(tag_id));
    let pushed = tags.push(tag_id);
    assert(is_first_index(pushed, tag_id, tags.len() as int));
    crate::util::lemma_first_index(pushed, tag_id, tags.len() as int);
    assert(pushed.contains(tag_id)) by {
        assert(pushed[tags.len() as int] == tag_id);
    }
    assert(without_first(pushed, tag_id) =~= tags);
    assert(twice.tags_by_track =~= index.tags_by_track);
    assert(index.tracks_of(tag_id).insert(track_id).remove(track_id) =~= index.tracks_of(tag_id));
    assert(twice.tracks_by_tag =~= index.tracks_by_tag);
}

/// A track carries a tag in the index built from rows exactly when some row
/// says so.
pub proof fn law_indexed_has_rows(rows: Seq<TrackTag>, track_id: TrackId, tag_id: TagId)
    ensures
        indexed(rows).has(track_id, tag_id) <==> exists|i: int|
            0 <= i < rows.len() && #[trigger] rows[i].track_id == track_id && rows[i].tag_id
                == tag_id,
    decreases rows.len(),
{
    if rows.len() > 0 {
        let rest = rows.drop_last();
        law_indexed_has_rows(rest, track_id, tag_id);
        if exists|i: int|
            0 <= i < rest.len() && #[trigger] rest[i].track_id == track_id && rest[i].tag_id
                == tag_id {
            let i = choose|i: int|
                0 <= i < rest.len() && #[trigger] rest[i].track_id == track_id && rest[i].tag_id
                    == tag_id;
            assert(rows[i] == rest[i]);
        }
        if exists|i: int|
            0 <= i < rows.len() && #[trigger] rows[i].track_id == track_id && rows[i].tag_id
                == tag_id {
            let i = choose|i: int|
                0 <= i < rows.len() && #[trigger] rows[i].track_id == track_id && rows[i].tag_id
                    == tag_id;
            if i < rest.len() {
                assert(rest[i] == rows[i]);
            }
        }
    }
}

} // verus!
