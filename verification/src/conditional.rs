//! A requirement together with the conditions that activate it.

use vstd::prelude::*;

use crate::condition::Condition;
use crate::ids::{VersionSetId, VersionSetUnionId};
use crate::interner::Interner;
use crate::requirement::Requirement;

verus! {

/// A requirement that is part of the graph only while all of its conditions
/// hold. With no conditions it is always active.
///
/// The conditions are kept in the order given. The order matters to no
/// one but a reader of a diagnostic, and a condition may stand twice.
#[derive(Debug, PartialEq, Eq, PartialOrd, Ord, Hash)]
pub struct ConditionalRequirement {
    /// The conditions that must all hold for the requirement to be active.
    pub conditions: Vec<Condition>,
    /// The requirement that the conditions gate.
    pub requirement: Requirement,
}

/// What a conditional requirement holds, its conditions read as a sequence.
pub struct ConditionalRequirementView {
    /// The conditions, in the order they are kept in.
    pub conditions: Seq<Condition>,
    /// The requirement that the conditions gate.
    pub requirement: Requirement,
}

impl View for ConditionalRequirement {
    type V = ConditionalRequirementView;

    open spec fn view(&self) -> ConditionalRequirementView {
        ConditionalRequirementView { conditions: self.conditions@, requirement: self.requirement }
    }
}

/// The requirement `requirement`, active under no condition.
pub open spec fn unconditional(requirement: Requirement) -> ConditionalRequirementView {
    ConditionalRequirementView { conditions: Seq::empty(), requirement }
}

/// Each version set of `members`, in order, with `conditions` beside it.
pub open spec fn paired(members: Seq<VersionSetId>, conditions: Seq<Condition>) -> Seq<
    (VersionSetId, Seq<Condition>),
> {
    members.map_values(|version_set: VersionSetId| (version_set, conditions))
}

/// What a sequence of pairs holds, each list of conditions read as a
/// sequence.
pub open spec fn pairs_view(pairs: Seq<(VersionSetId, Vec<Condition>)>) -> Seq<
    (VersionSetId, Seq<Condition>),
> {
    pairs.map_values(|pair: (VersionSetId, Vec<Condition>)| (pair.0, pair.1@))
}

/// Puts a copy of `conditions` beside each version set of `members`, in
/// order. No two of the copies share anything.
pub fn pair_with_conditions(members: Vec<VersionSetId>, conditions: &Vec<Condition>) -> (pairs: Vec<
    (VersionSetId, Vec<Condition>),
>)
    ensures
        pairs_view(pairs@) == paired(members@, conditions@),
        pairs.len() == members.len(),
        forall|k: int|
            0 <= k < pairs.len() ==> (#[trigger] pairs[k]).0 == members[k] && pairs[k].1@
                == conditions@,
{
    let mut pairs: Vec<(VersionSetId, Vec<Condition>)> = Vec::new();
    let mut at: usize = 0;
    while at < members.len()
        invariant
            at <= members.len(),
            pairs.len() == at,
            forall|k: int|
                0 <= k < at ==> (#[trigger] pairs[k]).0 == members[k] && pairs[k].1@
                    == conditions@,
        decreases members.len() - at,
    {
        let copy = conditions.clone();
        assert(copy@ =~= conditions@);
        pairs.push((members[at], copy));
        at += 1;
    }
    assert(pairs_view(pairs@) =~= paired(members@, conditions@));
    pairs
}

impl ConditionalRequirement {
    /// Makes a conditional requirement of the two parts, stored as given.
    pub fn new(conditions: Vec<Condition>, requirement: Requirement) -> (made: Self)
        ensures
            made.conditions == conditions,
            made.requirement == requirement,
    {
        ConditionalRequirement { conditions, requirement }
    }

    /// Returns the version sets that satisfy the requirement, whatever the
    /// conditions are.
    pub fn requirement_version_sets<I: Interner>(&self, interner: &I) -> (found: Vec<VersionSetId>)
        ensures
            found@ == self.requirement.members(interner),
    {
        self.requirement.version_sets(interner)
    }

    /// Returns the version sets that satisfy the requirement, each with a
    /// copy of all the conditions: they gate the requirement as a whole,
    /// so every alternative of a union gets the same ones.
    pub fn version_sets_with_condition<I: Interner>(&self, interner: &I) -> (pairs: Vec<
        (VersionSetId, Vec<Condition>),
    >)
        ensures
            pairs_view(pairs@) == paired(self.requirement.members(interner), self.conditions@),
            pairs.len() == self.requirement.members(interner).len(),
            forall|k: int|
                0 <= k < pairs.len() ==> (#[trigger] pairs[k]).0 == self.requirement.members(
                    interner,
                )[k] && pairs[k].1@ == self.conditions@,
    {
        pair_with_conditions(self.requirement.version_sets(interner), &self.conditions)
    }

    /// Takes the conditional requirement apart into its conditions and its
    /// requirement.
    pub fn into_condition_and_requirement(self) -> (parts: (Vec<Condition>, Requirement))
        ensures
            parts.0 == self.conditions,
            parts.1 == self.requirement,
    {
        (self.conditions, self.requirement)
    }
}

impl Clone for ConditionalRequirement {
    /// The copy has conditions of its own, equal to these one by one, and
    /// the same requirement.
    fn clone(&self) -> (copy: Self)
        ensures
            copy@ == self@,
    {
        let conditions = self.conditions.clone();
        assert(conditions@ =~= self.conditions@);
        ConditionalRequirement { conditions, requirement: self.requirement }
    }
}

impl From<Requirement> for ConditionalRequirement {
    /// A bare requirement is active under no condition.
    fn from(value: Requirement) -> (made: Self)
        ensures
            made@ == unconditional(value),
    {
        ConditionalRequirement { conditions: Vec::new(), requirement: value }
    }
}

/// No spec function can name the vector that `from` allocates, so the
/// conversion is stated on `from` itself, over the view of what it makes.
impl vstd::std_specs::convert::FromSpecImpl<Requirement> for ConditionalRequirement {
    open spec fn obeys_from_spec() -> bool {
        false
    }

    open spec fn from_spec(value: Requirement) -> Self {
        arbitrary()
    }
}

impl From<VersionSetId> for ConditionalRequirement {
    /// A bare version set is a single requirement under no condition.
    fn from(value: VersionSetId) -> (made: Self)
        ensures
            made@ == unconditional(Requirement::Single(value)),
    {
        ConditionalRequirement { conditions: Vec::new(), requirement: Requirement::Single(value) }
    }
}

/// No spec function can name the vector that `from` allocates, so the
/// conversion is stated on `from` itself, over the view of what it makes.
impl vstd::std_specs::convert::FromSpecImpl<VersionSetId> for ConditionalRequirement {
    open spec fn obeys_from_spec() -> bool {
        false
    }

    open spec fn from_spec(value: VersionSetId) -> Self {
        arbitrary()
    }
}

impl From<VersionSetUnionId> for ConditionalRequirement {
    /// A bare union is a union requirement under no condition.
    fn from(value: VersionSetUnionId) -> (made: Self)
        ensures
            made@ == unconditional(Requirement::Union(value)),
    {
        ConditionalRequirement { conditions: Vec::new(), requirement: Requirement::Union(value) }
    }
}

/// No spec function can name the vector that `from` allocates, so the
/// conversion is stated on `from` itself, over the view of what it makes.
impl vstd::std_specs::convert::FromSpecImpl<VersionSetUnionId> for ConditionalRequirement {
    open spec fn obeys_from_spec() -> bool {
        false
    }

    open spec fn from_spec(value: VersionSetUnionId) -> Self {
        arbitrary()
    }
}

impl From<(VersionSetId, Vec<Condition>)> for ConditionalRequirement {
    /// A version set with conditions is a single requirement under those
    /// conditions.
    fn from(value: (VersionSetId, Vec<Condition>)) -> (made: Self)
        ensures
            made.conditions == value.1,
            made.requirement == Requirement::Single(value.0),
    {
        ConditionalRequirement { conditions: value.1, requirement: Requirement::Single(value.0) }
    }
}

impl vstd::std_specs::convert::FromSpecImpl<(VersionSetId, Vec<Condition>)> for ConditionalRequirement {
    open spec fn obeys_from_spec() -> bool {
        true
    }

    open spec fn from_spec(value: (VersionSetId, Vec<Condition>)) -> Self {
        ConditionalRequirement { conditions: value.1, requirement: Requirement::Single(value.0) }
    }
}

/// Taking apart what `new` made gives back the conditions and the
/// requirement that it was made of.
pub proof fn lemma_new_then_decompose(
    conditions: Vec<Condition>,
    requirement: Requirement,
    made: ConditionalRequirement,
    parts: (Vec<Condition>, Requirement),
)
    requires
        call_ensures(ConditionalRequirement::new, (conditions, requirement), made),
        call_ensures(ConditionalRequirement::into_condition_and_requirement, (made,), parts),
    ensures
        parts == (conditions, requirement),
{
}

} // verus!
