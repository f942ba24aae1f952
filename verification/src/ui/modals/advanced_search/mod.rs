//! The modal in which the user builds the nested conditions of an advanced
//! search.
use vstd::prelude::*;
use vstd::string::*;

use crate::outcome::{ModalOutcome, TrackListOutcome};
use crate::search::models::{
    SearchCondition, SearchConditionGroup, SearchConditionGroupOperator,
    SearchConditionStatement, SearchConditionStatementKind, condition_at, group_same, removed_at,
    replaced_at,
};
use crate::tag::models::{Tag, TagGroup, TagId};
use crate::ui::modals::tag_tracks::tag::group_tags;

verus! {

pub struct AdvancedSearchModal {
    criteria: SearchConditionGroup,
    tag_options: Vec<PickListOption<TagId>>,
}

/// An index path leads from the top group to a condition: each index picks a
/// condition of the current group.
#[derive(Debug)]
pub enum Message {
    Close,
    Search,
    SelectConditionStatementTag(TagId, Vec<usize>),
    SelectConditionStatement(SearchConditionStatementKind, Vec<usize>),
    SelectGroupOperator(SearchConditionGroupOperator, Vec<usize>),
    AddCondition(Vec<usize>),
    AddSubgroup(Vec<usize>),
    RemoveStatement(Vec<usize>),
    RemoveGroup(Vec<usize>),
}

#[derive(Debug)]
pub enum Outcome {
    Modal(ModalOutcome),
    TrackList(TrackListOutcome),
}

/// An option of a pick list: what it shows, and the value it stands for.
#[derive(Debug, Clone)]
pub struct PickListOption<T: PartialEq> {
    pub label: String,
    pub value: T,
}

/// The label of the option for `tag` of `tag_group`: the group's name, a dash,
/// and the tag's name.
pub open spec fn option_label(tag_group: TagGroup, tag: Tag) -> Seq<char> {
    tag_group.name@ + seq![' ', '-', ' '] + tag.name@
}

/// The options for the tags of `tag_group`, in the order of `tags`.
pub open spec fn group_options(tag_group: TagGroup, tags: Seq<Tag>) -> Seq<(Seq<char>, TagId)> {
    group_tags(tags, tag_group.id).map_values(|tag: Tag| (option_label(tag_group, tag), tag.id))
}

/// The options for all tags, group by group in the order of `tag_groups`.
pub open spec fn tag_options(tags: Seq<Tag>, tag_groups: Seq<TagGroup>) -> Seq<(Seq<char>, TagId)>
    decreases tag_groups.len(),
{
    if tag_groups.len() == 0 {
        Seq::empty()
    } else {
        tag_options(tags, tag_groups.drop_last()) + group_options(tag_groups.last(), tags)
    }
}

/// Labels and values of `options`.
pub open spec fn option_pairs(options: Seq<PickListOption<TagId>>) -> Seq<(Seq<char>, TagId)> {
    options.map_values(|option: PickListOption<TagId>| (option.label@, option.value))
}

/// The statement that a new condition starts with.
pub open spec fn new_statement() -> SearchCondition {
    SearchCondition::Statement(SearchConditionStatement::HasTag { tag_id: None })
}

/// `after` is `before` with a new statement at its end.
pub open spec fn with_new_statement(before: SearchConditionGroup, after: SearchConditionGroup) -> bool {
    &&& after.operator == before.operator
    &&& after.conditions@ == before.conditions@.push(new_statement())
}

/// `after` is `before` with a new, empty `And` group at its end.
pub open spec fn with_new_subgroup(before: SearchConditionGroup, after: SearchConditionGroup) -> bool {
    &&& after.operator == before.operator
    &&& after.conditions@.len() == before.conditions@.len() + 1
    &&& after.conditions@.take(before.conditions@.len() as int) == before.conditions@
    &&& match after.conditions@.last() {
        SearchCondition::Group(group) => group.operator == SearchConditionGroupOperator::And
            && group.conditions@.len() == 0,
        SearchCondition::Statement(_) => false,
    }
}

/// `after` is `before` joined by `operator`.
pub open spec fn with_operator(
    before: SearchConditionGroup,
    after: SearchConditionGroup,
    operator: SearchConditionGroupOperator,
) -> bool {
    &&& after.operator == operator
    &&& after.conditions@ == before.conditions@
}

/// `statement` with its tag set to `tag_id`.
pub open spec fn with_tag(statement: SearchConditionStatement, tag_id: TagId) -> SearchConditionStatement {
    match statement {
        SearchConditionStatement::HasTag { .. } => SearchConditionStatement::HasTag {
            tag_id: Some(tag_id),
        },
        SearchConditionStatement::DoesNotHaveTag { .. } => SearchConditionStatement::DoesNotHaveTag {
            tag_id: Some(tag_id),
        },
    }
}

/// `after` is `before` with the group at `index_path` changed as `change`
/// says; unchanged when there is no group there.
pub open spec fn group_changed_at(
    before: SearchConditionGroup,
    after: SearchConditionGroup,
    index_path: Seq<usize>,
    change: spec_fn(SearchConditionGroup, SearchConditionGroup) -> bool,
) -> bool {
    match condition_at(before, index_path) {
        Some(SearchCondition::Group(group)) => exists|condition: SearchCondition|
            #[trigger] replaced_at(before, after, index_path, condition) && match condition {
                SearchCondition::Group(changed) => change(group, changed),
                SearchCondition::Statement(_) => false,
            },
        _ => after == before,
    }
}

/// `after` is `before` with the statement at `index_path` replaced by
/// `change` of it; unchanged when there is no statement there.
pub open spec fn statement_changed_at(
    before: SearchConditionGroup,
    after: SearchConditionGroup,
    index_path: Seq<usize>,
    change: spec_fn(SearchConditionStatement) -> SearchConditionStatement,
) -> bool {
    match condition_at(before, index_path) {
        Some(SearchCondition::Statement(statement)) => replaced_at(
            before,
            after,
            index_path,
            SearchCondition::Statement(change(statement)),
        ),
        _ => after == before,
    }
}

/// The criteria after `message`, and the outcomes that it gives.
pub open spec fn updated(
    before: SearchConditionGroup,
    after: SearchConditionGroup,
    message: Message,
    outcomes: Seq<Outcome>,
) -> bool {
    match message {
        Message::Close => after == before && outcomes == seq![Outcome::Modal(ModalOutcome::CloseModal)],
        Message::Search => {
            &&& after == before
            &&& outcomes.len() == 1
            &&& match outcomes[0] {
                Outcome::TrackList(TrackListOutcome::AdvancedSearch(criteria)) => group_same(
                    before,
                    criteria,
                ),
                _ => false,
            }
        },
        Message::AddCondition(index_path) => outcomes.len() == 0 && if index_path@.len() == 0 {
            with_new_statement(before, after)
        } else {
            group_changed_at(before, after, index_path@, |g: SearchConditionGroup, h: SearchConditionGroup| with_new_statement(g, h))
        },
        Message::AddSubgroup(index_path) => outcomes.len() == 0 && if index_path@.len() == 0 {
            with_new_subgroup(before, after)
        } else {
            group_changed_at(before, after, index_path@, |g: SearchConditionGroup, h: SearchConditionGroup| with_new_subgroup(g, h))
        },
        Message::RemoveGroup(index_path) => outcomes.len() == 0 && removed_at(
            before,
            after,
            index_path@,
        ),
        Message::RemoveStatement(index_path) => outcomes.len() == 0 && removed_at(
            before,
            after,
            index_path@,
        ),
        Message::SelectConditionStatement(kind, index_path) => outcomes.len() == 0
            && statement_changed_at(before, after, index_path@, |s: SearchConditionStatement| kind.spec_statement()),
        Message::SelectConditionStatementTag(tag_id, index_path) => outcomes.len() == 0
            && statement_changed_at(before, after, index_path@, |s: SearchConditionStatement| with_tag(s, tag_id)),
        Message::SelectGroupOperator(operator, index_path) => outcomes.len() == 0 && if index_path@.len()
            == 0 {
            with_operator(before, after, operator)
        } else {
            group_changed_at(before, after, index_path@, |g: SearchConditionGroup, h: SearchConditionGroup| with_operator(g, h, operator))
        },
    }
}

impl AdvancedSearchModal {
    /// The search criteria being built.
    pub closed spec fn spec_criteria(self) -> SearchConditionGroup {
        self.criteria
    }

    /// Labels and values of the tag options.
    pub closed spec fn spec_tag_options(self) -> Seq<(Seq<char>, TagId)> {
        option_pairs(self.tag_options@)
    }

    /// A modal editing `criteria`, offering every tag of `tags` that belongs to
    /// one of `tag_groups`.
    pub fn new(criteria: SearchConditionGroup, tags: &[Tag], tag_groups: &[TagGroup]) -> (modal:
        Self)
        ensures
            modal.spec_criteria() == criteria,
            modal.spec_tag_options() == tag_options(tags@, tag_groups@),
    {
        let mut options: Vec<PickListOption<TagId>> = Vec::new();
        let mut g: usize = 0;
        while g < tag_groups.len()
            invariant
                g <= tag_groups@.len(),
                option_pairs(options@) == tag_options(tags@, tag_groups@.take(g as int)),
            decreases tag_groups@.len() - g,
        {
            let tag_group = &tag_groups[g];
            let ghost before = options@;
            let mut t: usize = 0;
            while t < tags.len()
                invariant
                    g < tag_groups@.len(),
                    *tag_group == tag_groups@[g as int],
                    t <= tags@.len(),
                    option_pairs(options@) == option_pairs(before) + group_options(
                        *tag_group,
                        tags@.take(t as int),
                    ),
                decreases tags@.len() - t,
            {
                let tag = &tags[t];
                assert(tags@.take(t + 1).drop_last() =~= tags@.take(t as int));
                if tag.tag_group_id == tag_group.id {
                    let mut label = tag_group.name.clone();
                    label.append(" - ");
                    label.append(tag.name.as_str());
                    proof {
                        reveal_strlit(" - ");
                        assert(" - "@ =~= seq![' ', '-', ' ']);
                        assert(label@ =~= option_label(*tag_group, *tag));
                        assert(group_tags(tags@.take(t + 1), tag_group.id) == group_tags(
                            tags@.take(t as int),
                            tag_group.id,
                        ).push(*tag));
                    }
                    let ghost pushed = options@;
                    options.push(PickListOption { label, value: tag.id });
                    assert(option_pairs(options@) =~= option_pairs(pushed).push(
                        (option_label(*tag_group, *tag), tag.id),
                    ));
                    assert(option_pairs(options@) =~= option_pairs(before) + group_options(
                        *tag_group,
                        tags@.take(t + 1),
                    ));
                } else {
                    assert(option_pairs(options@) =~= option_pairs(before) + group_options(
                        *tag_group,
                        tags@.take(t + 1),
                    ));
                }
                t += 1;
            }
            assert(tags@.take(tags@.len() as int) =~= tags@);
            assert(tag_groups@.take(g + 1).drop_last() =~= tag_groups@.take(g as int));
            g += 1;
        }
        assert(tag_groups@.take(tag_groups@.len() as int) =~= tag_groups@);
        AdvancedSearchModal { criteria, tag_options: options }
    }

    /// The search criteria being built.
    pub fn criteria(&self) -> (criteria: &SearchConditionGroup)
        ensures
            *criteria == self.spec_criteria(),
    {
        &self.criteria
    }

    /// The options of the tag pick lists.
    pub fn tag_options(&self) -> (options: &[PickListOption<TagId>])
        ensures
            option_pairs(options@) == self.spec_tag_options(),
    {
        self.tag_options.as_slice()
    }
    /// Edits the criteria as `message` asks, or asks to close the modal or to
    /// search with a copy of the criteria.
    pub fn update(&mut self, message: Message) -> (outcomes: Vec<Outcome>)
        ensures
            updated(old(self).spec_criteria(), final(self).spec_criteria(), message, outcomes@),
            final(self).spec_tag_options() == old(self).spec_tag_options(),
    {
        let mut outcomes: Vec<Outcome> = Vec::new();
        match message {
            Message::Close => {
                outcomes.push(Outcome::Modal(ModalOutcome::CloseModal));
            },
            Message::Search => {
                outcomes.push(
                    Outcome::TrackList(TrackListOutcome::AdvancedSearch(self.criteria.clone())),
                );
            },
            Message::AddCondition(index_path) => {
                if index_path.len() == 0 {
                    self.criteria.conditions.push(
                        SearchCondition::Statement(SearchConditionStatement::HasTag { tag_id: None }),
                    );
                } else if let Some(SearchCondition::Group(_)) = self.criteria.get(
                    index_path.as_slice(),
                ) {
                    if let Some(SearchCondition::Group(group)) = self.criteria.get_mut(
                        index_path.as_slice(),
                    ) {
                        group.conditions.push(
                            SearchCondition::Statement(
                                SearchConditionStatement::HasTag { tag_id: None },
                            ),
                        );
                    }
                }
            },
            Message::AddSubgroup(index_path) => {
                if index_path.len() == 0 {
                    let ghost before = self.criteria.conditions@;
                    self.criteria.conditions.push(
                        SearchCondition::Group(SearchConditionGroup::default()),
                    );
                    assert(self.criteria.conditions@.take(before.len() as int) =~= before);
                } else if let Some(SearchCondition::Group(_)) = self.criteria.get(
                    index_path.as_slice(),
                ) {
                    if let Some(SearchCondition::Group(group)) = self.criteria.get_mut(
                        index_path.as_slice(),
                    ) {
                        let ghost before = group.conditions@;
                        group.conditions.push(
                            SearchCondition::Group(SearchConditionGroup::default()),
                        );
                        assert(group.conditions@.take(before.len() as int) =~= before);
                    }
                }
            },
            Message::RemoveGroup(index_path) => {
                let _ = self.criteria.remove(index_path.as_slice());
            },
            Message::RemoveStatement(index_path) => {
                let _ = self.criteria.remove(index_path.as_slice());
            },
            Message::SelectConditionStatement(kind, index_path) => {
                if let Some(SearchCondition::Statement(_)) = self.criteria.get(
                    index_path.as_slice(),
                ) {
                    if let Some(SearchCondition::Statement(statement)) = self.criteria.get_mut(
                        index_path.as_slice(),
                    ) {
                        *statement = kind.statement();
                    }
                }
            },
            Message::SelectConditionStatementTag(selected_tag_id, index_path) => {
                if let Some(SearchCondition::Statement(_)) = self.criteria.get(
                    index_path.as_slice(),
                ) {
                    if let Some(SearchCondition::Statement(statement)) = self.criteria.get_mut(
                        index_path.as_slice(),
                    ) {
                        *statement = match statement {
                            SearchConditionStatement::HasTag { .. } => SearchConditionStatement::HasTag {
                                tag_id: Some(selected_tag_id),
                            },
                            SearchConditionStatement::DoesNotHaveTag { .. } => SearchConditionStatement::DoesNotHaveTag {
                                tag_id: Some(selected_tag_id),
                            },
                        };
                    }
                }
            },
            Message::SelectGroupOperator(operator, index_path) => {
                if index_path.len() == 0 {
                    self.criteria.operator = operator;
                } else if let Some(SearchCondition::Group(_)) = self.criteria.get(
                    index_path.as_slice(),
                ) {
                    if let Some(SearchCondition::Group(group)) = self.criteria.get_mut(
                        index_path.as_slice(),
                    ) {
                        group.operator = operator;
                    }
                }
            },
        }
        outcomes
    }
}

impl Default for AdvancedSearchModal {
    /// A modal editing an empty `And` group, offering no tags.
    fn default() -> (modal: Self)
        ensures
            modal.spec_criteria().operator == SearchConditionGroupOperator::And,
            modal.spec_criteria().conditions@.len() == 0,
            modal.spec_tag_options().len() == 0,
    {
        let modal = AdvancedSearchModal {
            criteria: SearchConditionGroup::default(),
            tag_options: Vec::new(),
        };
        assert(modal.spec_tag_options() =~= Seq::empty());
        modal
    }
}

} // verus!
