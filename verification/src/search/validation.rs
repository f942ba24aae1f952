use vstd::prelude::*;

use crate::search::models::{SearchCondition, SearchConditionGroup, SearchConditionStatement};

verus! {

/// A statement is valid once its tag is chosen.
pub open spec fn statement_valid(statement: SearchConditionStatement) -> bool {
    match statement {
        SearchConditionStatement::HasTag { tag_id } => tag_id is Some,
        SearchConditionStatement::DoesNotHaveTag { tag_id } => tag_id is Some,
    }
}

/// A group is valid when it holds at least one condition and all of its
/// conditions are valid.
pub open spec fn group_valid(group: SearchConditionGroup) -> bool
    decreases group,
{
    &&& group.conditions@.len() > 0
    &&& forall|i: int|
        0 <= i < group.conditions@.len() ==> condition_valid(#[trigger] group.conditions@[i])
}

pub open spec fn condition_valid(condition: SearchCondition) -> bool
    decreases condition,
{
    match condition {
        SearchCondition::Statement(statement) => statement_valid(statement),
        SearchCondition::Group(group) => group_valid(group),
    }
}

impl SearchConditionGroup {
    pub fn is_empty(&self) -> (empty: bool)
        ensures
            empty == (self.conditions@.len() == 0),
    {
        self.conditions.len() == 0
    }

    /// Validates that the group is valid to perform a search.
    pub fn validate(&self) -> (valid: bool)
        ensures
            valid == group_valid(*self),
        decreases self,
    {
        let mut i: usize = 0;
        while i < self.conditions.len()
            invariant
                i <= self.conditions@.len(),
                forall|j: int| 0 <= j < i ==> condition_valid(#[trigger] self.conditions@[j]),
            decreases self.conditions@.len() - i,
        {
            proof {
                assert(decreases_to!(*self => self.conditions));
                assert(decreases_to!(self.conditions => self.conditions[i as int]));
            }
            if !self.conditions[i].validate() {
                return false;
            }
            i += 1;
        }
        !self.is_empty()
    }
}

impl SearchCondition {
    /// Validates that the condition is valid to perform a search.
    pub fn validate(&self) -> (valid: bool)
        ensures
            valid == condition_valid(*self),
        decreases self,
    {
        match self {
            SearchCondition::Statement(statement) => statement.validate(),
            SearchCondition::Group(group) => group.validate(),
        }
    }
}

impl SearchConditionStatement {
    /// Validates that the statement is valid to perform a search.
    pub fn validate(&self) -> (valid: bool)
        ensures
            valid == statement_valid(*self),
    {
        match self {
            SearchConditionStatement::HasTag { tag_id }
            | SearchConditionStatement::DoesNotHaveTag { tag_id } => tag_id.is_some(),
        }
    }
}

} // verus!
