use rustc_hash::{FxHashMap, FxHashSet};

use vstd::prelude::*;

use crate::fx;
use crate::playback::queue::entry::TrackId;
use crate::tag::models::{TagId, TrackTag};
use crate::util::{first_index, lemma_first_index, position_of};

verus! {

/// In-memory index of which tracks carry which tags, kept both ways.
#[derive(Debug)]
pub struct TrackTagIndex {
    tags_by_track: FxHashMap<TrackId, Vec<TagId>>,
    tracks_by_tag: FxHashMap<TagId, FxHashSet<TrackId>>,
}

/// Mathematical state of a track tag index.
pub struct TrackTagIndexView {
    pub tags_by_track: Map<TrackId, Seq<TagId>>,
    pub tracks_by_tag: Map<TagId, Set<TrackId>>,
}

impl View for TrackTagIndex {
    type V = TrackTagIndexView;

    closed spec fn view(&self) -> TrackTagIndexView {
        TrackTagIndexView {
            tags_by_track: self.tags_by_track@.map_values(|tags: Vec<TagId>| tags@),
            tracks_by_tag: self.tracks_by_tag@.map_values(|tracks: FxHashSet<TrackId>| tracks@),
        }
    }
}

/// `tags` without the first occurrence of `tag_id`.
pub open spec fn without_first(tags: Seq<TagId>, tag_id: TagId) -> Seq<TagId> {
    if tags.contains(tag_id) {
        tags.remove(first_index(tags, tag_id))
    } else {
        tags
    }
}

impl TrackTagIndexView {
    pub open spec fn empty() -> TrackTagIndexView {
        TrackTagIndexView { tags_by_track: Map::empty(), tracks_by_tag: Map::empty() }
    }

    /// Tags listed for a track.
    pub open spec fn tags_of(self, track_id: TrackId) -> Seq<TagId> {
        if self.tags_by_track.contains_key(track_id) {
            self.tags_by_track[track_id]
        } else {
            Seq::empty()
        }
    }

    /// Tracks listed for a tag.
    pub open spec fn tracks_of(self, tag_id: TagId) -> Set<TrackId> {
        if self.tracks_by_tag.contains_key(tag_id) {
            self.tracks_by_tag[tag_id]
        } else {
            Set::empty()
        }
    }

    /// The track carries the tag, according to the tag's track set.
    pub open spec fn has(self, track_id: TrackId, tag_id: TagId) -> bool {
        self.tracks_by_tag.contains_key(tag_id) && self.tracks_by_tag[tag_id].contains(track_id)
    }

    /// The index after recording that the track carries the tag.
    pub open spec fn tagged(self, track_id: TrackId, tag_id: TagId) -> TrackTagIndexView {
        TrackTagIndexView {
            tags_by_track: self.tags_by_track.insert(track_id, self.tags_of(track_id).push(tag_id)),
            tracks_by_tag: self.tracks_by_tag.insert(tag_id, self.tracks_of(tag_id).insert(track_id)),
        }
    }

    /// The index after recording that the track no longer carries the tag;
    /// entries left empty are dropped.
    pub open spec fn untagged(self, track_id: TrackId, tag_id: TagId) -> TrackTagIndexView {
        TrackTagIndexView {
            tags_by_track: if self.tags_by_track.contains_key(track_id) {
                let tags = without_first(self.tags_by_track[track_id], tag_id);
                if tags.len() == 0 {
                    self.tags_by_track.remove(track_id)
                } else {
                    self.tags_by_track.insert(track_id, tags)
                }
            } else {
                self.tags_by_track
            },
            tracks_by_tag: if self.tracks_by_tag.contains_key(tag_id) {
                let tracks = self.tracks_by_tag[tag_id].remove(track_id);
                if tracks.is_empty() {
                    self.tracks_by_tag.remove(tag_id)
                } else {
                    self.tracks_by_tag.insert(tag_id, tracks)
                }
            } else {
                self.tracks_by_tag
            },
        }
    }

    /// The index after toggling whether the track carries the tag.
    pub open spec fn toggled(self, track_id: TrackId, tag_id: TagId) -> TrackTagIndexView {
        if self.has(track_id, tag_id) {
            self.untagged(track_id, tag_id)
        } else {
            self.tagged(track_id, tag_id)
        }
    }
}

/// The index built from track tag rows, recorded in order.
pub open spec fn indexed(rows: Seq<TrackTag>) -> TrackTagIndexView
    decreases rows.len(),
{
    if rows.len() == 0 {
        TrackTagIndexView::empty()
    } else {
        indexed(rows.drop_last()).tagged(rows.last().track_id, rows.last().tag_id)
    }
}

impl TrackTagIndex {
    pub fn new(track_tag_rows: Vec<TrackTag>) -> (index: Self)
        ensures
            index@ == indexed(track_tag_rows@),
    {
        let mut index = TrackTagIndex {
            tags_by_track: FxHashMap::default(),
            tracks_by_tag: FxHashMap::default(),
        };
        assert(index@.tags_by_track =~= Map::empty());
        assert(index@.tracks_by_tag =~= Map::empty());
        let mut i: usize = 0;
        assert(track_tag_rows@.take(0) =~= Seq::<TrackTag>::empty());
        while i < track_tag_rows.len()
            invariant
                i <= track_tag_rows@.len(),
                index@ == indexed(track_tag_rows@.take(i as int)),
            decreases track_tag_rows@.len() - i,
        {
            let row = track_tag_rows[i];
            index.tag_track(row.track_id, row.tag_id);
            assert(track_tag_rows@.take(i + 1).drop_last() =~= track_tag_rows@.take(i as int));
            i += 1;
        }
        assert(track_tag_rows@.take(track_tag_rows@.len() as int) =~= track_tag_rows@);
        index
    }

    pub fn get_track_tags(&self, track_id: TrackId) -> (tags: Option<&Vec<TagId>>)
        ensures
            match tags {
                Some(tags) => self@.tags_by_track.contains_key(track_id) && tags@
                    == self@.tags_by_track[track_id],
                None => !self@.tags_by_track.contains_key(track_id),
            },
    {
        fx::map_get(&self.tags_by_track, track_id)
    }

    pub fn get_tag_tracks(&self, tag_id: TagId) -> (tracks: Option<&FxHashSet<TrackId>>)
        ensures
            match tracks {
                Some(tracks) => self@.tracks_by_tag.contains_key(tag_id) && tracks@
                    == self@.tracks_by_tag[tag_id],
                None => !self@.tracks_by_tag.contains_key(tag_id),
            },
    {
        fx::map_get(&self.tracks_by_tag, tag_id)
    }

    pub fn tag_track(&mut self, track_id: TrackId, tag_id: TagId)
        ensures
            final(self)@ == old(self)@.tagged(track_id, tag_id),
    {
        let ghost old_view = self@;
        let mut tag_tracks = match fx::map_remove(&mut self.tracks_by_tag, tag_id) {
            Some(tracks) => tracks,
            None => FxHashSet::default(),
        };
        fx::set_insert(&mut tag_tracks, track_id);
        fx::map_insert(&mut self.tracks_by_tag, tag_id, tag_tracks);
        let mut track_tags = match fx::map_remove(&mut self.tags_by_track, track_id) {
            Some(tags) => tags,
            None => Vec::new(),
        };
        track_tags.push(tag_id);
        fx::map_insert(&mut self.tags_by_track, track_id, track_tags);
        assert(self@.tags_by_track =~= old_view.tagged(track_id, tag_id).tags_by_track);
        assert(self@.tracks_by_tag =~= old_view.tagged(track_id, tag_id).tracks_by_tag);
    }

    pub fn untag_track(&mut self, track_id: TrackId, tag_id: TagId)
        ensures
            final(self)@ == old(self)@.untagged(track_id, tag_id),
    {
        let ghost old_view = self@;
        if let Some(mut track_tags) = fx::map_remove(&mut self.tags_by_track, track_id) {
            if let Some(position) = position_of(&track_tags, tag_id) {
                proof {
                    lemma_first_index(track_tags@, tag_id, position as int);
                }
                track_tags.remove(position);
            }
            if !track_tags.is_empty() {
                fx::map_insert(&mut self.tags_by_track, track_id, track_tags);
            }
        }
        if let Some(mut tag_tracks) = fx::map_remove(&mut self.tracks_by_tag, tag_id) {
            fx::set_remove(&mut tag_tracks, track_id);
            if !tag_tracks.is_empty() {
                fx::map_insert(&mut self.tracks_by_tag, tag_id, tag_tracks);
            }
        }
        assert(self@.tags_by_track =~= old_view.untagged(track_id, tag_id).tags_by_track);
        assert(self@.tracks_by_tag =~= old_view.untagged(track_id, tag_id).tracks_by_tag);
    }

    pub fn toggle_track_tag(&mut self, track_id: TrackId, tag_id: TagId)
        ensures
            final(self)@ == old(self)@.toggled(track_id, tag_id),
    {
        if self.track_tag_exists(track_id, tag_id) {
            self.untag_track(track_id, tag_id);
        } else {
            self.tag_track(track_id, tag_id);
        }
    }

    pub fn track_tag_exists(&self, track_id: TrackId, tag_id: TagId) -> (tagged: bool)
        ensures
            tagged == self@.has(track_id, tag_id),
    {
        match fx::map_get(&self.tracks_by_tag, tag_id) {
            Some(tag_tracks) => fx::set_contains(tag_tracks, track_id),
            None => false,
        }
    }
}

impl Default for TrackTagIndex {
    fn default() -> (index: Self)
        ensures
            index@ == TrackTagIndexView::empty(),
    {
        Self::new(Vec::new())
    }
}

} // verus!
