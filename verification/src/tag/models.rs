use vstd::prelude::*;

use crate::traits::Identifiable;

verus! {

/// Identifier of a tag.
pub type TagId = i64;

/// Identifier of a tag group.
pub type TagGroupId = i64;

/// A tag that tracks can be given; it belongs to a tag group.
#[derive(Debug, Clone)]
pub struct Tag {
    pub id: i64,
    pub name: String,
    pub tag_group_id: i64,
    pub created_at: i64,
    pub updated_at: i64,
    pub deleted_at: Option<i64>,
}

impl Identifiable for Tag {
    type Identifier = i64;

    fn id(&self) -> (id: &i64)
        ensures
            *id == self.id,
    {
        &self.id
    }
}

/// A named group of tags.
#[derive(Debug, Clone)]
pub struct TagGroup {
    pub id: i64,
    pub name: String,
    pub created_at: i64,
    pub updated_at: i64,
    pub deleted_at: Option<i64>,
}

impl Identifiable for TagGroup {
    type Identifier = i64;

    fn id(&self) -> (id: &i64)
        ensures
            *id == self.id,
    {
        &self.id
    }
}

/// A row telling that a track has a tag.
#[derive(Debug, Clone, Copy)]
pub struct TrackTag {
    pub id: i64,
    pub tag_id: i64,
    pub track_id: i64,
    pub created_at: i64,
}

/// The tags, tag groups and track tags of the library.
#[derive(Debug, Clone)]
pub struct TagLibrary {
    pub tags: Vec<Tag>,
    pub tag_groups: Vec<TagGroup>,
    pub track_tags: Vec<TrackTag>,
}

} // verus!
