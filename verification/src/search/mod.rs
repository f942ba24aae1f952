pub mod models;
pub mod validation;
pub mod laws;

use rustc_hash::FxHashSet;

use vstd::prelude::*;

use crate::fx;
use crate::playback::queue::entry::TrackId;
use crate::search::models::{
    SearchCondition, SearchConditionGroup, SearchConditionGroupOperator, SearchConditionStatement,
};
use crate::search::validation::group_valid;
use crate::tag::index::{TrackTagIndex, TrackTagIndexView};

verus! {

#[derive(Debug, Clone, Copy, PartialEq, Eq, Structural)]
pub enum SearchError {
    /// Invalid search conditions.
    InvalidSearchConditions,
}

/// Tracks a statement selects among `tracks`: those carrying the tag, or those
/// of `tracks` not carrying it; nothing when no tag is chosen.
pub open spec fn statement_result(
    statement: SearchConditionStatement,
    tracks: Set<TrackId>,
    index: TrackTagIndexView,
) -> Option<Set<TrackId>> {
    match statement {
        SearchConditionStatement::HasTag { tag_id: Some(tag_id) } => Some(index.tracks_of(tag_id)),
        SearchConditionStatement::DoesNotHaveTag { tag_id: Some(tag_id) } => Some(
            tracks.difference(index.tracks_of(tag_id)),
        ),
        _ => None,
    }
}

/// Tracks a condition selects.
pub open spec fn condition_result(
    condition: SearchCondition,
    tracks: Set<TrackId>,
    index: TrackTagIndexView,
) -> Option<Set<TrackId>>
    decreases condition, 0int, 0int,
{
    match condition {
        SearchCondition::Statement(statement) => statement_result(statement, tracks, index),
        SearchCondition::Group(group) => Some(group_result(group, tracks, index)),
    }
}

/// Tracks a group selects: the intersection (`And`) or union (`Or`) of what
/// its conditions select, starting from all tracks (`And`) or none (`Or`).
pub open spec fn group_result(
    group: SearchConditionGroup,
    tracks: Set<TrackId>,
    index: TrackTagIndexView,
) -> Set<TrackId>
    decreases group, 1int, 0int,
{
    combined_result(group, group.conditions@.len() as int, tracks, index)
}

/// What a group selects from its first `n` conditions.
pub open spec fn combined_result(
    group: SearchConditionGroup,
    n: int,
    tracks: Set<TrackId>,
    index: TrackTagIndexView,
) -> Set<TrackId>
    decreases group, 0int, n,
{
    if n <= 0 || n > group.conditions@.len() {
        match group.operator {
            SearchConditionGroupOperator::And => tracks,
            SearchConditionGroupOperator::Or => Set::empty(),
        }
    } else {
        let so_far = combined_result(group, n - 1, tracks, index);
        proof {
            assert(decreases_to!(group => group.conditions));
            assert(decreases_to!(group.conditions => group.conditions[n - 1]));
        }
        match condition_result(group.conditions@[n - 1], tracks, index) {
            None => so_far,
            Some(selected) => match group.operator {
                SearchConditionGroupOperator::And => so_far.intersect(selected),
                SearchConditionGroupOperator::Or => so_far.union(selected),
            },
        }
    }
}

/// Tracks of `left` also in `right`.
fn intersection(left: &FxHashSet<TrackId>, right: &FxHashSet<TrackId>) -> (result: FxHashSet<
    TrackId,
>)
    ensures
        result@ == left@.intersect(right@),
{
    let elements = fx::set_elements(left);
    let mut result: FxHashSet<TrackId> = FxHashSet::default();
    let mut i: usize = 0;
    while i < elements.len()
        invariant
            i <= elements@.len(),
            forall|t: TrackId|
                result@.contains(t) <==> (right@.contains(t) && exists|k: int|
                    0 <= k < i && #[trigger] elements@[k] == t),
        decreases elements@.len() - i,
    {
        let track_id = elements[i];
        if fx::set_contains(right, track_id) {
            fx::set_insert(&mut result, track_id);
        }
        assert forall|t: TrackId|
            result@.contains(t) <==> (right@.contains(t) && exists|k: int|
                0 <= k < i + 1 && #[trigger] elements@[k] == t) by {
            if t == track_id {
                assert(elements@[i as int] == t);
            }
        }
        i += 1;
    }
    assert(result@ =~= left@.intersect(right@)) by {
        assert forall|t: TrackId| left@.contains(t) <==> exists|k: int|
            0 <= k < elements@.len() && #[trigger] elements@[k] == t by {
            assert(elements@.to_set().contains(t) == elements@.contains(t));
        }
    }
    result
}

/// Tracks of `left` or of `right`.
fn union(left: &FxHashSet<TrackId>, right: &FxHashSet<TrackId>) -> (result: FxHashSet<TrackId>)
    ensures
        result@ == left@.union(right@),
{
    let elements = fx::set_elements(right);
    let mut result = fx::set_clone(left);
    let mut i: usize = 0;
    while i < elements.len()
        invariant
            i <= elements@.len(),
            forall|t: TrackId|
                result@.contains(t) <==> (left@.contains(t) || exists|k: int|
                    0 <= k < i && #[trigger] elements@[k] == t),
        decreases elements@.len() - i,
    {
        let track_id = elements[i];
        fx::set_insert(&mut result, track_id);
        assert forall|t: TrackId|
            result@.contains(t) <==> (left@.contains(t) || exists|k: int|
                0 <= k < i + 1 && #[trigger] elements@[k] == t) by {
            if t == track_id {
                assert(elements@[i as int] == t);
            }
        }
        i += 1;
    }
    assert(result@ =~= left@.union(right@)) by {
        assert forall|t: TrackId| right@.contains(t) <==> exists|k: int|
            0 <= k < elements@.len() && #[trigger] elements@[k] == t by {
            assert(elements@.to_set().contains(t) == elements@.contains(t));
        }
    }
    result
}

/// Tracks of `left` not in `right`.
fn difference(left: &FxHashSet<TrackId>, right: &FxHashSet<TrackId>) -> (result: FxHashSet<
    TrackId,
>)
    ensures
        result@ == left@.difference(right@),
{
    let elements = fx::set_elements(left);
    let mut result: FxHashSet<TrackId> = FxHashSet::default();
    let mut i: usize = 0;
    while i < elements.len()
        invariant
            i <= elements@.len(),
            forall|t: TrackId|
                result@.contains(t) <==> (!right@.contains(t) && exists|k: int|
                    0 <= k < i && #[trigger] elements@[k] == t),
        decreases elements@.len() - i,
    {
        let track_id = elements[i];
        if !fx::set_contains(right, track_id) {
            fx::set_insert(&mut result, track_id);
        }
        assert forall|t: TrackId|
            result@.contains(t) <==> (!right@.contains(t) && exists|k: int|
                0 <= k < i + 1 && #[trigger] elements@[k] == t) by {
            if t == track_id {
                assert(elements@[i as int] == t);
            }
        }
        i += 1;
    }
    assert(result@ =~= left@.difference(right@)) by {
        assert forall|t: TrackId| left@.contains(t) <==> exists|k: int|
            0 <= k < elements@.len() && #[trigger] elements@[k] == t by {
            assert(elements@.to_set().contains(t) == elements@.contains(t));
        }
    }
    result
}

impl SearchConditionStatement {
    /// Tracks selected by the statement; `None` when it has no tag.
    pub fn filter(&self, tracks: &FxHashSet<TrackId>, track_tag_index: &TrackTagIndex) -> (result:
        Option<FxHashSet<TrackId>>)
        ensures
            match result {
                Some(selected) => statement_result(*self, tracks@, track_tag_index@) == Some(
                    selected@,
                ),
                None => statement_result(*self, tracks@, track_tag_index@) is None,
            },
    {
        match self {
            SearchConditionStatement::HasTag { tag_id: Some(tag_id) } => {
                match track_tag_index.get_tag_tracks(*tag_id) {
                    Some(tag_tracks) => Some(fx::set_clone(tag_tracks)),
                    None => {
                        let empty: FxHashSet<TrackId> = FxHashSet::default();
                        assert(empty@ =~= track_tag_index@.tracks_of(*tag_id));
                        Some(empty)
                    },
                }
            },
            SearchConditionStatement::DoesNotHaveTag { tag_id: Some(tag_id) } => {
                match track_tag_index.get_tag_tracks(*tag_id) {
                    Some(tag_tracks) => Some(difference(tracks, tag_tracks)),
                    None => {
                        let all = fx::set_clone(tracks);
                        assert(all@ =~= tracks@.difference(track_tag_index@.tracks_of(*tag_id)));
                        Some(all)
                    },
                }
            },
            SearchConditionStatement::HasTag { tag_id: None }
            | SearchConditionStatement::DoesNotHaveTag { tag_id: None } => None,
        }
    }
}

/// Tracks among `tracks` that satisfy the criteria.
///
/// # Errors
/// Fails when the criteria are not valid.
pub fn search(
    tracks: &FxHashSet<TrackId>,
    track_tag_index: &TrackTagIndex,
    criteria: SearchConditionGroup,
) -> (result: Result<FxHashSet<TrackId>, SearchError>)
    ensures
        match result {
            Ok(selected) => group_valid(criteria) && selected@ == group_result(
                criteria,
                tracks@,
                track_tag_index@,
            ),
            Err(error) => !group_valid(criteria) && error == SearchError::InvalidSearchConditions,
        },
{
    if !criteria.validate() {
        return Err(SearchError::InvalidSearchConditions);
    }
    Ok(search_valid_group(tracks, track_tag_index, &criteria))
}

/// What a valid group selects among `tracks`.
fn search_valid_group(
    tracks: &FxHashSet<TrackId>,
    track_tag_index: &TrackTagIndex,
    criteria: &SearchConditionGroup,
) -> (selected: FxHashSet<TrackId>)
    requires
        group_valid(*criteria),
    ensures
        selected@ == group_result(*criteria, tracks@, track_tag_index@),
    decreases criteria,
{
    let mut result = match criteria.operator {
        SearchConditionGroupOperator::And => fx::set_clone(tracks),
        SearchConditionGroupOperator::Or => {
            let none: FxHashSet<TrackId> = FxHashSet::default();
            none
        },
    };
    let mut i: usize = 0;
    while i < criteria.conditions.len()
        invariant
            i <= criteria.conditions@.len(),
            group_valid(*criteria),
            result@ == combined_result(*criteria, i as int, tracks@, track_tag_index@),
        decreases criteria.conditions@.len() - i,
    {
        proof {
            assert(decreases_to!(*criteria => criteria.conditions));
            assert(decreases_to!(criteria.conditions => criteria.conditions[i as int]));
            assert(crate::search::validation::condition_valid(criteria.conditions@[i as int]));
        }
        let selected = match &criteria.conditions[i] {
            SearchCondition::Statement(statement) => statement.filter(tracks, track_tag_index),
            SearchCondition::Group(group) => Some(search_valid_group(tracks, track_tag_index, group)),
        };
        assert(match selected {
            Some(set) => condition_result(criteria.conditions@[i as int], tracks@, track_tag_index@)
                == Some(set@),
            None => condition_result(criteria.conditions@[i as int], tracks@, track_tag_index@) is None,
        });
        assert(combined_result(*criteria, i + 1, tracks@, track_tag_index@) == match condition_result(
            criteria.conditions@[i as int],
            tracks@,
            track_tag_index@,
        ) {
            None => combined_result(*criteria, i as int, tracks@, track_tag_index@),
            Some(chosen) => match criteria.operator {
                SearchConditionGroupOperator::And => combined_result(
                    *criteria,
                    i as int,
                    tracks@,
                    track_tag_index@,
                ).intersect(chosen),
                SearchConditionGroupOperator::Or => combined_result(
                    *criteria,
                    i as int,
                    tracks@,
                    track_tag_index@,
                ).union(chosen),
            },
        });
        if let Some(selected) = selected {
            result = match criteria.operator {
                SearchConditionGroupOperator::And => intersection(&result, &selected),
                SearchConditionGroupOperator::Or => union(&result, &selected),
            };
        }
        i += 1;
    }
    result
}

} // verus!
