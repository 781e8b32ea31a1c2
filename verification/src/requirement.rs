//! What a dependency edge demands.

use vstd::prelude::*;

use crate::ids::{VersionSetId, VersionSetUnionId};
use crate::interner::Interner;
use crate::render::{
    alternative_separator, joined, named_constraint, render_alternatives, render_version_set,
};

verus! {

/// The demand of a dependency edge on the packages that may satisfy it.
#[derive(Clone, Copy, Debug, PartialEq, Eq, Structural, PartialOrd, Ord, Hash)]
pub enum Requirement {
    /// This one version set must be satisfied.
    Single(VersionSetId),
    /// Any one member of the union must be satisfied. The members may
    /// constrain different packages.
    Union(VersionSetUnionId),
}

/// The text of one version set as the interner names it: the name of its
/// package, one space, its constraint.
pub open spec fn version_set_text<I: Interner>(interner: &I, version_set: VersionSetId) -> Seq<
    char,
> {
    named_constraint(
        interner.name_text(interner.name_of(version_set)),
        interner.constraint_text(version_set),
    )
}

/// The text of each version set of `version_sets`, in the same order.
pub open spec fn version_set_texts<I: Interner>(
    interner: &I,
    version_sets: Seq<VersionSetId>,
) -> Seq<Seq<char>> {
    version_sets.map_values(|version_set: VersionSetId| version_set_text(interner, version_set))
}

impl Requirement {
    /// The version sets that satisfy the requirement: the one of a single
    /// requirement, the members of a union in stored order.
    pub open spec fn members<I: Interner>(self, interner: &I) -> Seq<VersionSetId> {
        match self {
            Requirement::Single(version_set) => seq![version_set],
            Requirement::Union(union) => interner.union_members(union),
        }
    }

    /// The text of the requirement: that of its version set, or those of
    /// the members of its union with `" | "` between them.
    pub open spec fn text<I: Interner>(self, interner: &I) -> Seq<char> {
        match self {
            Requirement::Single(version_set) => version_set_text(interner, version_set),
            Requirement::Union(union) => joined(
                version_set_texts(interner, interner.union_members(union)),
                alternative_separator(),
            ),
        }
    }

    /// Renders the requirement for a diagnostic. Nothing of the interner is
    /// kept past the call.
    pub fn display<I: Interner>(&self, interner: &I) -> (text: String)
        ensures
            text@ == self.text(interner),
    {
        match *self {
            Requirement::Single(version_set) => display_with_name(interner, version_set),
            Requirement::Union(union) => {
                let members = interner.version_sets_in_union(union);
                let mut rendered: Vec<String> = Vec::new();
                let mut at: usize = 0;
                while at < members.len()
                    invariant
                        at <= members.len(),
                        rendered.len() == at,
                        forall|k: int|
                            0 <= k < at ==> #[trigger] rendered[k]@ == version_set_text(
                                interner,
                                members[k],
                            ),
                    decreases members.len() - at,
                {
                    rendered.push(display_with_name(interner, members[at]));
                    at += 1;
                }
                assert(rendered.deep_view() =~= version_set_texts(interner, members@));
                render_alternatives(&rendered)
            },
        }
    }

    /// Returns the version sets that satisfy the requirement, in order. The
    /// requirement is not used up: every call gives the same sequence.
    pub fn version_sets<I: Interner>(&self, interner: &I) -> (found: Vec<VersionSetId>)
        ensures
            found@ == self.members(interner),
            *self matches Requirement::Single(version_set) ==> found@ == seq![version_set],
            *self matches Requirement::Union(union) ==> found@ == interner.union_members(union),
    {
        match *self {
            Requirement::Single(version_set) => {
                let mut found: Vec<VersionSetId> = Vec::new();
                found.push(version_set);
                assert(found@ =~= seq![version_set]);
                found
            },
            Requirement::Union(union) => interner.version_sets_in_union(union),
        }
    }
}

/// Expanding a requirement twice against one interner gives the same
/// version sets in the same order both times.
pub proof fn lemma_version_sets_restartable<I: Interner>(
    requirement: &Requirement,
    interner: &I,
    first: Vec<VersionSetId>,
    second: Vec<VersionSetId>,
)
    requires
        call_ensures(Requirement::version_sets::<I>, (requirement, interner), first),
        call_ensures(Requirement::version_sets::<I>, (requirement, interner), second),
    ensures
        first@ == second@,
{
}

/// The text of a requirement is the texts of the version sets that satisfy
/// it, in their order, with `" | "` between them.
pub proof fn lemma_text_follows_members<I: Interner>(requirement: Requirement, interner: &I)
    ensures
        requirement.text(interner) == joined(
            version_set_texts(interner, requirement.members(interner)),
            alternative_separator(),
        ),
{
}

/// Renders one version set as the interner names it: the name of its
/// package, one space, its constraint.
pub fn display_with_name<I: Interner>(interner: &I, version_set: VersionSetId) -> (text: String)
    ensures
        text@ == version_set_text(interner, version_set),
{
    let name = interner.display_name(interner.version_set_name(version_set));
    let constraint = interner.display_version_set(version_set);
    render_version_set(name.as_str(), constraint.as_str())
}

impl Default for Requirement {
    /// A placeholder, never a meaningful demand: the single version set of
    /// index zero.
    fn default() -> (requirement: Self)
        ensures
            requirement == Requirement::Single(VersionSetId(0)),
    {
        Requirement::Single(VersionSetId::default())
    }
}

impl From<VersionSetId> for Requirement {
    /// A version set becomes the demand for that one version set.
    fn from(value: VersionSetId) -> (requirement: Self)
        ensures
            requirement == Requirement::Single(value),
    {
        Requirement::Single(value)
    }
}

impl vstd::std_specs::convert::FromSpecImpl<VersionSetId> for Requirement {
    open spec fn obeys_from_spec() -> bool {
        true
    }

    open spec fn from_spec(value: VersionSetId) -> Self {
        Requirement::Single(value)
    }
}

impl From<VersionSetUnionId> for Requirement {
    /// A union becomes the demand for any one of its members.
    fn from(value: VersionSetUnionId) -> (requirement: Self)
        ensures
            requirement == Requirement::Union(value),
    {
        Requirement::Union(value)
    }
}

impl vstd::std_specs::convert::FromSpecImpl<VersionSetUnionId> for Requirement {
    open spec fn obeys_from_spec() -> bool {
        true
    }

    open spec fn from_spec(value: VersionSetUnionId) -> Self {
        Requirement::Union(value)
    }
}

} // verus!
