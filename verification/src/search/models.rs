use vstd::prelude::*;

use crate::tag::models::TagId;

verus! {

/// A group of search conditions joined by an operator.
#[derive(Debug)]
pub struct SearchConditionGroup {
    pub operator: SearchConditionGroupOperator,
    pub conditions: Vec<SearchCondition>,
}

#[derive(Debug, Clone, Copy, PartialEq, Eq, Structural)]
pub enum SearchConditionGroupOperator {
    And,
    Or,
}

#[derive(Debug)]
pub enum SearchCondition {
    Statement(SearchConditionStatement),
    Group(SearchConditionGroup),
}

#[derive(Debug, Clone, Copy, PartialEq, Eq, Structural)]
pub enum SearchConditionStatement {
    HasTag { tag_id: Option<TagId> },
    DoesNotHaveTag { tag_id: Option<TagId> },
}

#[derive(Debug, Clone, Copy, PartialEq, Eq, Structural)]
pub enum SearchConditionStatementKind {
    HasTag,
    DoesNotHaveTag,
}

/// The condition found by following `index_path` into `group`: each index
/// picks a condition of the current group, and every index but the last must
/// pick a group.
pub open spec fn condition_at(group: SearchConditionGroup, index_path: Seq<usize>) -> Option<
    SearchCondition,
>
    decreases index_path.len(),
{
    if index_path.len() == 0 || index_path[0] >= group.conditions@.len() {
        None
    } else {
        let condition = group.conditions@[index_path[0] as int];
        if index_path.len() == 1 {
            Some(condition)
        } else {
            match condition {
                SearchCondition::Group(subgroup) => condition_at(subgroup, index_path.drop_first()),
                SearchCondition::Statement(_) => None,
            }
        }
    }
}

/// `after` is `before` with the condition at `index_path` replaced by
/// `condition`, everything else unchanged.
pub open spec fn replaced_at(
    before: SearchConditionGroup,
    after: SearchConditionGroup,
    index_path: Seq<usize>,
    condition: SearchCondition,
) -> bool
    decreases index_path.len(),
{
    if index_path.len() == 0 || index_path[0] >= before.conditions@.len() {
        after == before
    } else {
        let i = index_path[0] as int;
        &&& after.operator == before.operator
        &&& after.conditions@.len() == before.conditions@.len()
        &&& forall|j: int|
            0 <= j < before.conditions@.len() && j != i ==> #[trigger] after.conditions@[j]
                == before.conditions@[j]
        &&& if index_path.len() == 1 {
            after.conditions@[i] == condition
        } else {
            match (before.conditions@[i], after.conditions@[i]) {
                (SearchCondition::Group(old_group), SearchCondition::Group(new_group)) => replaced_at(
                    old_group,
                    new_group,
                    index_path.drop_first(),
                    condition,
                ),
                _ => false,
            }
        }
    }
}

impl Default for SearchConditionGroupOperator {
    fn default() -> (operator: Self)
        ensures
            operator == SearchConditionGroupOperator::And,
    {
        SearchConditionGroupOperator::And
    }
}

impl Default for SearchConditionStatementKind {
    fn default() -> (kind: Self)
        ensures
            kind == SearchConditionStatementKind::HasTag,
    {
        SearchConditionStatementKind::HasTag
    }
}

impl Default for SearchConditionGroup {
    /// An empty group joined by `And`.
    fn default() -> (group: Self)
        ensures
            group.operator == SearchConditionGroupOperator::And,
            group.conditions@.len() == 0,
    {
        SearchConditionGroup { operator: SearchConditionGroupOperator::And, conditions: Vec::new() }
    }
}

/// `a` and `b` hold the same conditions under the same operators, all the way
/// down.
pub open spec fn group_same(a: SearchConditionGroup, b: SearchConditionGroup) -> bool
    decreases a,
{
    &&& a.operator == b.operator
    &&& a.conditions@.len() == b.conditions@.len()
    &&& forall|i: int|
        0 <= i < a.conditions@.len() ==> condition_same(
            #[trigger] a.conditions@[i],
            b.conditions@[i],
        )
}

pub open spec fn condition_same(a: SearchCondition, b: SearchCondition) -> bool
    decreases a,
{
    match a {
        SearchCondition::Statement(x) => b == SearchCondition::Statement(x),
        SearchCondition::Group(x) => match b {
            SearchCondition::Group(y) => group_same(x, y),
            SearchCondition::Statement(_) => false,
        },
    }
}

/// `after` is `before` without the condition at `index_path`; unchanged when
/// there is no condition there.
pub open spec fn removed_at(
    before: SearchConditionGroup,
    after: SearchConditionGroup,
    index_path: Seq<usize>,
) -> bool
    decreases index_path.len(),
{
    if index_path.len() == 0 || index_path[0] >= before.conditions@.len() {
        after == before
    } else {
        let i = index_path[0] as int;
        if index_path.len() == 1 {
            &&& after.operator == before.operator
            &&& after.conditions@ == before.conditions@.remove(i)
        } else {
            match before.conditions@[i] {
                SearchCondition::Statement(_) => after == before,
                SearchCondition::Group(old_group) => {
                    &&& after.operator == before.operator
                    &&& after.conditions@.len() == before.conditions@.len()
                    &&& forall|j: int|
                        0 <= j < before.conditions@.len() && j != i ==> #[trigger] after.conditions@[j]
                            == before.conditions@[j]
                    &&& match after.conditions@[i] {
                        SearchCondition::Group(new_group) => removed_at(
                            old_group,
                            new_group,
                            index_path.drop_first(),
                        ),
                        SearchCondition::Statement(_) => false,
                    }
                },
            }
        }
    }
}

impl SearchConditionStatementKind {
    pub open spec fn spec_statement(self) -> SearchConditionStatement {
        match self {
            SearchConditionStatementKind::HasTag => SearchConditionStatement::HasTag {
                tag_id: None,
            },
            SearchConditionStatementKind::DoesNotHaveTag => SearchConditionStatement::DoesNotHaveTag {
                tag_id: None,
            },
        }
    }

    /// A statement of this kind with no tag chosen yet.
    pub fn statement(&self) -> (statement: SearchConditionStatement)
        ensures
            statement == self.spec_statement(),
    {
        match self {
            SearchConditionStatementKind::HasTag => SearchConditionStatement::HasTag { tag_id: None },
            SearchConditionStatementKind::DoesNotHaveTag => SearchConditionStatement::DoesNotHaveTag {
                tag_id: None,
            },
        }
    }
}

impl SearchConditionStatement {
    pub open spec fn spec_kind(self) -> SearchConditionStatementKind {
        match self {
            SearchConditionStatement::HasTag { .. } => SearchConditionStatementKind::HasTag,
            SearchConditionStatement::DoesNotHaveTag { .. } => SearchConditionStatementKind::DoesNotHaveTag,
        }
    }

    pub fn kind(&self) -> (kind: SearchConditionStatementKind)
        ensures
            kind == self.spec_kind(),
    {
        match self {
            SearchConditionStatement::HasTag { tag_id: _ } => SearchConditionStatementKind::HasTag,
            SearchConditionStatement::DoesNotHaveTag { tag_id: _ } => SearchConditionStatementKind::DoesNotHaveTag,
        }
    }
}

impl SearchConditionGroup {
    /// The condition at `index_path`, if there is one.
    pub fn get(&self, index_path: &[usize]) -> (condition: Option<&SearchCondition>)
        ensures
            match condition {
                Some(condition) => condition_at(*self, index_path@) == Some(*condition),
                None => condition_at(*self, index_path@) is None,
            },
    {
        assert(index_path@.skip(0) =~= index_path@);
        self.get_from(index_path, 0)
    }

    fn get_from(&self, index_path: &[usize], start: usize) -> (condition: Option<&SearchCondition>)
        requires
            start <= index_path@.len(),
        ensures
            match condition {
                Some(condition) => condition_at(*self, index_path@.skip(start as int)) == Some(
                    *condition,
                ),
                None => condition_at(*self, index_path@.skip(start as int)) is None,
            },
        decreases index_path@.len() - start,
    {
        let ghost path = index_path@.skip(start as int);
        if start >= index_path.len() {
            return None;
        }
        let index = index_path[start];
        if index >= self.conditions.len() {
            return None;
        }
        let condition = &self.conditions[index];
        if start + 1 == index_path.len() {
            return Some(condition);
        }
        assert(path.drop_first() =~= index_path@.skip(start + 1));
        match condition {
            SearchCondition::Group(group) => group.get_from(index_path, start + 1),
            SearchCondition::Statement(_) => None,
        }
    }

    /// The condition at `index_path`, if there is one, to be changed in place.
    pub fn get_mut(&mut self, index_path: &[usize]) -> (condition: Option<&mut SearchCondition>)
        ensures
            match condition {
                Some(condition) => condition_at(*old(self), index_path@) == Some(*condition)
                    && replaced_at(*old(self), *final(self), index_path@, *final(condition)),
                None => condition_at(*old(self), index_path@) is None && *final(self) == *old(
                    self,
                ),
            },
    {
        assert(index_path@.skip(0) =~= index_path@);
        self.get_mut_from(index_path, 0)
    }

    fn get_mut_from(&mut self, index_path: &[usize], start: usize) -> (condition: Option<
        &mut SearchCondition,
    >)
        requires
            start <= index_path@.len(),
        ensures
            match condition {
                Some(condition) => condition_at(*old(self), index_path@.skip(start as int)) == Some(
                    *condition,
                ) && replaced_at(
                    *old(self),
                    *final(self),
                    index_path@.skip(start as int),
                    *final(condition),
                ),
                None => condition_at(*old(self), index_path@.skip(start as int)) is None
                    && *final(self) == *old(self),
            },
        decreases index_path@.len() - start,
    {
        let ghost path = index_path@.skip(start as int);
        if self.get_from(index_path, start).is_none() {
            return None;
        }
        let index = index_path[start];
        if start + 1 == index_path.len() {
            return Some(&mut self.conditions[index]);
        }
        assert(path.drop_first() =~= index_path@.skip(start + 1));
        match &mut self.conditions[index] {
            SearchCondition::Group(group) => group.get_mut_from(index_path, start + 1),
            SearchCondition::Statement(_) => None,
        }
    }
}

impl Clone for SearchConditionGroup {
    fn clone(&self) -> (copy: Self)
        ensures
            group_same(*self, copy),
        decreases self,
    {
        let mut conditions: Vec<SearchCondition> = Vec::new();
        let mut i: usize = 0;
        while i < self.conditions.len()
            invariant
                i <= self.conditions@.len(),
                conditions@.len() == i,
                forall|j: int|
                    0 <= j < i ==> condition_same(
                        #[trigger] self.conditions@[j],
                        conditions@[j],
                    ),
            decreases self.conditions@.len() - i,
        {
            proof {
                assert(decreases_to!(*self => self.conditions));
                assert(decreases_to!(self.conditions => self.conditions[i as int]));
            }
            let condition = self.conditions[i].clone();
            conditions.push(condition);
            i += 1;
        }
        SearchConditionGroup { operator: self.operator, conditions }
    }
}

impl Clone for SearchCondition {
    fn clone(&self) -> (copy: Self)
        ensures
            condition_same(*self, copy),
        decreases self,
    {
        match self {
            SearchCondition::Statement(statement) => SearchCondition::Statement(*statement),
            SearchCondition::Group(group) => SearchCondition::Group(group.clone()),
        }
    }
}

impl SearchConditionGroup {
    /// Removes the condition at `index_path` and gives it back; `None`, with
    /// nothing removed, when there is no condition there.
    pub fn remove(&mut self, index_path: &[usize]) -> (removed: Option<SearchCondition>)
        ensures
            removed == condition_at(*old(self), index_path@),
            removed_at(*old(self), *final(self), index_path@),
    {
        assert(index_path@.skip(0) =~= index_path@);
        self.remove_from(index_path, 0)
    }

    fn remove_from(&mut self, index_path: &[usize], start: usize) -> (removed: Option<
        SearchCondition,
    >)
        requires
            start <= index_path@.len(),
        ensures
            removed == condition_at(*old(self), index_path@.skip(start as int)),
            removed_at(*old(self), *final(self), index_path@.skip(start as int)),
        decreases index_path@.len() - start,
    {
        let ghost path = index_path@.skip(start as int);
        if start >= index_path.len() {
            return None;
        }
        let index = index_path[start];
        if index >= self.conditions.len() {
            return None;
        }
        if start + 1 == index_path.len() {
            return Some(self.conditions.remove(index));
        }
        if let SearchCondition::Statement(_) = &self.conditions[index] {
            return None;
        }
        assert(path.drop_first() =~= index_path@.skip(start + 1));
        match &mut self.conditions[index] {
            SearchCondition::Group(group) => group.remove_from(index_path, start + 1),
            SearchCondition::Statement(_) => None,
        }
    }
}

} // verus!
