use rustc_hash::FxHashSet;
use soundlore::outcome::{ModalOutcome, TrackListOutcome};
use soundlore::search::models::{
    SearchCondition, SearchConditionGroup, SearchConditionGroupOperator, SearchConditionStatement,
    SearchConditionStatementKind,
};
use soundlore::search::search;
use soundlore::tag::index::TrackTagIndex;
use soundlore::tag::models::{Tag, TagGroup, TrackTag};
use soundlore::ui::modals::advanced_search::{AdvancedSearchModal, Message, Outcome};

fn tag(id: i64, name: &str, tag_group_id: i64) -> Tag {
    Tag {
        id,
        name: name.to_string(),
        tag_group_id,
        created_at: 0,
        updated_at: 0,
        deleted_at: None,
    }
}

fn tag_group(id: i64, name: &str) -> TagGroup {
    TagGroup { id, name: name.to_string(), created_at: 0, updated_at: 0, deleted_at: None }
}

/// The criteria as the search outcome hands them out.
fn searched(modal: &mut AdvancedSearchModal) -> SearchConditionGroup {
    let mut outcomes = modal.update(Message::Search);
    assert_eq!(outcomes.len(), 1);
    match outcomes.remove(0) {
        Outcome::TrackList(TrackListOutcome::AdvancedSearch(criteria)) => criteria,
        other => panic!("unexpected outcome {other:?}"),
    }
}

#[test]
fn tag_options_are_labelled_with_group_and_tag_names_group_by_group() {
    let tags = vec![tag(1, "Rock", 1), tag(2, "Calm", 2), tag(3, "Jazz", 1), tag(4, "Lost", 9)];
    let tag_groups = vec![tag_group(2, "Mood"), tag_group(1, "Genre")];

    let modal = AdvancedSearchModal::new(SearchConditionGroup::default(), &tags, &tag_groups);

    let options: Vec<(String, i64)> =
        modal.tag_options().iter().map(|option| (option.label.clone(), option.value)).collect();
    assert_eq!(
        options,
        vec![
            ("Mood - Calm".to_string(), 2),
            ("Genre - Rock".to_string(), 1),
            ("Genre - Jazz".to_string(), 3),
        ]
    );
}

#[test]
fn conditions_and_subgroups_are_added_where_the_path_leads() {
    let mut modal = AdvancedSearchModal::default();

    assert!(modal.update(Message::AddCondition(vec![])).is_empty());
    assert!(modal.update(Message::AddSubgroup(vec![])).is_empty());
    modal.update(Message::AddCondition(vec![1]));
    modal.update(Message::AddSubgroup(vec![1]));
    modal.update(Message::AddCondition(vec![0]));

    let criteria = modal.criteria();
    assert_eq!(criteria.conditions.len(), 2);
    assert!(matches!(
        criteria.get(&[0]),
        Some(SearchCondition::Statement(SearchConditionStatement::HasTag { tag_id: None }))
    ));
    assert!(matches!(
        criteria.get(&[1, 0]),
        Some(SearchCondition::Statement(SearchConditionStatement::HasTag { tag_id: None }))
    ));
    assert!(matches!(
        criteria.get(&[1, 1]),
        Some(SearchCondition::Group(group))
            if group.conditions.is_empty() && group.operator == SearchConditionGroupOperator::And
    ));
    assert!(criteria.get(&[2]).is_none());
}

#[test]
fn statements_take_a_kind_and_a_tag() {
    let mut modal = AdvancedSearchModal::default();
    modal.update(Message::AddCondition(vec![]));

    modal.update(Message::SelectConditionStatement(
        SearchConditionStatementKind::DoesNotHaveTag,
        vec![0],
    ));
    modal.update(Message::SelectConditionStatementTag(5, vec![0]));

    assert!(matches!(
        modal.criteria().get(&[0]),
        Some(SearchCondition::Statement(SearchConditionStatement::DoesNotHaveTag {
            tag_id: Some(5)
        }))
    ));

    modal.update(Message::SelectConditionStatement(SearchConditionStatementKind::HasTag, vec![0]));
    assert!(matches!(
        modal.criteria().get(&[0]),
        Some(SearchCondition::Statement(SearchConditionStatement::HasTag { tag_id: None }))
    ));
}

#[test]
fn group_operators_are_selected_where_the_path_leads() {
    let mut modal = AdvancedSearchModal::default();
    modal.update(Message::AddSubgroup(vec![]));

    modal.update(Message::SelectGroupOperator(SearchConditionGroupOperator::Or, vec![]));
    modal.update(Message::SelectGroupOperator(SearchConditionGroupOperator::Or, vec![0]));

    assert_eq!(modal.criteria().operator, SearchConditionGroupOperator::Or);
    assert!(matches!(
        modal.criteria().get(&[0]),
        Some(SearchCondition::Group(group)) if group.operator == SearchConditionGroupOperator::Or
    ));
}

#[test]
fn messages_for_the_wrong_kind_of_condition_change_nothing() {
    let mut modal = AdvancedSearchModal::default();
    modal.update(Message::AddCondition(vec![]));

    modal.update(Message::AddCondition(vec![0]));
    modal.update(Message::SelectGroupOperator(SearchConditionGroupOperator::Or, vec![0]));
    modal.update(Message::SelectConditionStatementTag(5, vec![3]));

    let criteria = modal.criteria();
    assert_eq!(criteria.conditions.len(), 1);
    assert!(matches!(
        criteria.get(&[0]),
        Some(SearchCondition::Statement(SearchConditionStatement::HasTag { tag_id: None }))
    ));
}

#[test]
fn removing_a_condition_added_last_restores_the_criteria() {
    let mut modal = AdvancedSearchModal::default();
    modal.update(Message::AddSubgroup(vec![]));
    modal.update(Message::AddCondition(vec![]));
    modal.update(Message::RemoveStatement(vec![1]));

    assert_eq!(modal.criteria().conditions.len(), 1);

    modal.update(Message::AddCondition(vec![0]));
    modal.update(Message::RemoveGroup(vec![0, 0]));
    assert!(matches!(
        modal.criteria().get(&[0]),
        Some(SearchCondition::Group(group)) if group.conditions.is_empty()
    ));

    modal.update(Message::RemoveGroup(vec![0]));
    assert!(modal.criteria().conditions.is_empty());
}

#[test]
fn removing_at_a_path_leading_nowhere_changes_nothing() {
    let mut criteria = SearchConditionGroup::default();
    criteria.conditions.push(SearchCondition::Statement(SearchConditionStatement::HasTag {
        tag_id: Some(1),
    }));

    assert!(criteria.remove(&[]).is_none());
    assert!(criteria.remove(&[1]).is_none());
    assert!(criteria.remove(&[0, 0]).is_none());
    assert_eq!(criteria.conditions.len(), 1);

    assert!(matches!(
        criteria.remove(&[0]),
        Some(SearchCondition::Statement(SearchConditionStatement::HasTag { tag_id: Some(1) }))
    ));
    assert!(criteria.conditions.is_empty());
}

#[test]
fn searching_hands_out_a_copy_that_selects_what_the_criteria_select() {
    let mut modal = AdvancedSearchModal::default();
    modal.update(Message::AddCondition(vec![]));
    modal.update(Message::SelectConditionStatementTag(1, vec![0]));
    modal.update(Message::AddSubgroup(vec![]));
    modal.update(Message::SelectGroupOperator(SearchConditionGroupOperator::Or, vec![1]));
    modal.update(Message::AddCondition(vec![1]));
    modal.update(Message::SelectConditionStatement(
        SearchConditionStatementKind::DoesNotHaveTag,
        vec![1, 0],
    ));
    modal.update(Message::SelectConditionStatementTag(2, vec![1, 0]));

    let copy = searched(&mut modal);
    assert_eq!(copy.conditions.len(), 2);

    let tracks: FxHashSet<i64> = (1..=6).collect();
    let rows = vec![
        TrackTag { id: 1, tag_id: 1, track_id: 1, created_at: 0 },
        TrackTag { id: 2, tag_id: 1, track_id: 2, created_at: 0 },
        TrackTag { id: 3, tag_id: 1, track_id: 3, created_at: 0 },
        TrackTag { id: 4, tag_id: 2, track_id: 2, created_at: 0 },
    ];
    let index = TrackTagIndex::new(rows);

    let from_copy = search(&tracks, &index, copy).unwrap();
    let from_criteria = search(&tracks, &index, modal.criteria().clone()).unwrap();
    let expected: FxHashSet<i64> = [1, 3].into_iter().collect();
    assert_eq!(from_copy, expected);
    assert_eq!(from_criteria, expected);
}

#[test]
fn closing_asks_to_close_the_modal() {
    let mut modal = AdvancedSearchModal::default();
    let outcomes = modal.update(Message::Close);
    assert!(matches!(outcomes.as_slice(), [Outcome::Modal(ModalOutcome::CloseModal)]));
}
