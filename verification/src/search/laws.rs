//! Laws of the search over copies of criteria.
use vstd::prelude::*;

use crate::playback::queue::entry::TrackId;
use crate::search::models::{
    SearchCondition, SearchConditionGroup, SearchConditionGroupOperator, condition_same,
    group_same,
};
use crate::search::validation::{condition_valid, group_valid};
use crate::search::{combined_result, condition_result, group_result};
use crate::tag::index::TrackTagIndexView;

verus! {

proof fn lemma_same_condition(
    a: SearchCondition,
    b: SearchCondition,
    tracks: Set<TrackId>,
    index: TrackTagIndexView,
)
    requires
        condition_same(a, b),
    ensures
        condition_valid(a) == condition_valid(b),
        condition_result(a, tracks, index) == condition_result(b, tracks, index),
    decreases a, 0int, 0int,
{
    match a {
        SearchCondition::Statement(_) => {},
        SearchCondition::Group(x) => match b {
            SearchCondition::Group(y) => {
                lemma_same_group(x, y, tracks, index);
            },
            SearchCondition::Statement(_) => {},
        },
    }
}

proof fn lemma_same_combined(
    a: SearchConditionGroup,
    b: SearchConditionGroup,
    n: int,
    tracks: Set<TrackId>,
    index: TrackTagIndexView,
)
    requires
        group_same(a, b),
    ensures
        combined_result(a, n, tracks, index) == combined_result(b, n, tracks, index),
    decreases a, 0int, n,
{
    if 0 < n <= a.conditions@.len() {
        lemma_same_combined(a, b, n - 1, tracks, index);
        assert(decreases_to!(a => a.conditions));
        assert(decreases_to!(a.conditions => a.conditions[n - 1]));
        assert(condition_same(a.conditions@[n - 1], b.conditions@[n - 1]));
        lemma_same_condition(a.conditions@[n - 1], b.conditions@[n - 1], tracks, index);
    }
}

proof fn lemma_same_group(
    a: SearchConditionGroup,
    b: SearchConditionGroup,
    tracks: Set<TrackId>,
    index: TrackTagIndexView,
)
    requires
        group_same(a, b),
    ensures
        group_valid(a) == group_valid(b),
        group_result(a, tracks, index) == group_result(b, tracks, index),
    decreases a, 1int, 0int,
{
    lemma_same_combined(a, b, a.conditions@.len() as int, tracks, index);
    assert forall|i: int| 0 <= i < a.conditions@.len() implies condition_valid(
        #[trigger] a.conditions@[i],
    ) == condition_valid(b.conditions@[i]) by {
        assert(decreases_to!(a => a.conditions));
        assert(decreases_to!(a.conditions => a.conditions[i]));
        assert(condition_same(a.conditions@[i], b.conditions@[i]));
        lemma_same_condition(a.conditions@[i], b.conditions@[i], tracks, index);
    }
    if !group_valid(a) && group_valid(b) {
        let i = choose|i: int| 0 <= i < a.conditions@.len() && !condition_valid(
            #[trigger] a.conditions@[i],
        );
        assert(condition_valid(b.conditions@[i]));
    }
    if group_valid(a) && !group_valid(b) {
        let i = choose|i: int| 0 <= i < b.conditions@.len() && !condition_valid(
            #[trigger] b.conditions@[i],
        );
        assert(condition_valid(a.conditions@[i]));
    }
}

/// Criteria holding the same conditions under the same operators, such as a
/// copy and the criteria it was made from, are valid alike and select the same tracks.
pub proof fn law_same_criteria_same_search(
    a: SearchConditionGroup,
    b: SearchConditionGroup,
    tracks: Set<TrackId>,
    index: TrackTagIndexView,
)
    requires
        group_same(a, b),
    ensures
        group_valid(a) == group_valid(b),
        group_result(a, tracks, index) == group_result(b, tracks, index),
{
    lemma_same_group(a, b, tracks, index);
}

proof fn lemma_combined_holds_condition(
    group: SearchConditionGroup,
    n: int,
    i: int,
    tracks: Set<TrackId>,
    index: TrackTagIndexView,
)
    requires
        0 <= i < n <= group.conditions@.len(),
        condition_result(group.conditions@[i], tracks, index) is Some,
    ensures
        group.operator == SearchConditionGroupOperator::Or ==> condition_result(
            group.conditions@[i],
            tracks,
            index,
        )->0.subset_of(combined_result(group, n, tracks, index)),
        group.operator == SearchConditionGroupOperator::And ==> combined_result(
            group,
            n,
            tracks,
            index,
        ).subset_of(condition_result(group.conditions@[i], tracks, index)->0),
    decreases n,
{
    if i < n - 1 {
        lemma_combined_holds_condition(group, n - 1, i, tracks, index);
    }
}

/// An `Or` group selects every track that any of its conditions selects, and
/// an `And` group selects only tracks that each of its conditions selects.
pub proof fn law_group_combines_conditions(
    group: SearchConditionGroup,
    i: int,
    tracks: Set<TrackId>,
    index: TrackTagIndexView,
)
    requires
        0 <= i < group.conditions@.len(),
        condition_result(group.conditions@[i], tracks, index) is Some,
    ensures
        group.operator == SearchConditionGroupOperator::Or ==> condition_result(
            group.conditions@[i],
            tracks,
            index,
        )->0.subset_of(group_result(group, tracks, index)),
        group.operator == SearchConditionGroupOperator::And ==> group_result(
            group,
            tracks,
            index,
        ).subset_of(condition_result(group.conditions@[i], tracks, index)->0),
{
    lemma_combined_holds_condition(group, group.conditions@.len() as int, i, tracks, index);
}

} // verus!
