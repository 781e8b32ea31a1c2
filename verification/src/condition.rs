//! A single fact that gates a requirement.

use vstd::prelude::*;

use crate::ids::{StringId, VersionSetId};

verus! {

/// A fact that must hold for a requirement to be active.
#[derive(Clone, Copy, Debug, PartialEq, Eq, Structural, PartialOrd, Ord, Hash)]
pub enum Condition {
    /// Some selected candidate satisfies this version set.
    VersionSetId(VersionSetId),
    /// The optional feature of this name is enabled.
    Extra(StringId),
}

impl Condition {
    /// The version set that the condition wraps, if it wraps one.
    pub open spec fn version_set(self) -> Option<VersionSetId> {
        match self {
            Condition::VersionSetId(id) => Some(id),
            Condition::Extra(_) => None,
        }
    }

    /// Returns the version set that the condition wraps, or `None` for an
    /// extra.
    pub fn as_version_set(&self) -> (found: Option<VersionSetId>)
        ensures
            found == self.version_set(),
    {
        match *self {
            Condition::VersionSetId(id) => Some(id),
            Condition::Extra(_) => None,
        }
    }
}

impl From<VersionSetId> for Condition {
    /// A version set becomes the condition that it is satisfied.
    fn from(value: VersionSetId) -> (condition: Self)
        ensures
            condition == Condition::VersionSetId(value),
    {
        Condition::VersionSetId(value)
    }
}

impl vstd::std_specs::convert::FromSpecImpl<VersionSetId> for Condition {
    open spec fn obeys_from_spec() -> bool {
        true
    }

    open spec fn from_spec(value: VersionSetId) -> Self {
        Condition::VersionSetId(value)
    }
}

impl From<StringId> for Condition {
    /// A name becomes the condition that the extra of that name is enabled.
    fn from(value: StringId) -> (condition: Self)
        ensures
            condition == Condition::Extra(value),
    {
        Condition::Extra(value)
    }
}

impl vstd::std_specs::convert::FromSpecImpl<StringId> for Condition {
    open spec fn obeys_from_spec() -> bool {
        true
    }

    open spec fn from_spec(value: StringId) -> Self {
        Condition::Extra(value)
    }
}

impl VersionSetId {
    /// Takes the version set out of a condition that is known to wrap one.
    ///
    /// A caller has branched on the condition before: an extra here is a
    /// bug in the caller, which verified callers cannot have. Reached from
    /// unverified code with an extra, the call panics.
    pub fn from(value: Condition) -> (id: Self)
        requires
            value is VersionSetId,
        ensures
            value == Condition::VersionSetId(id),
    {
        match value {
            Condition::VersionSetId(id) => id,
            Condition::Extra(_) => unreached(),
        }
    }
}

/// A version set made into a condition can be taken out again, and what
/// comes out is the version set that went in.
pub proof fn lemma_version_set_roundtrip(version_set: VersionSetId, condition: Condition)
    requires
        call_ensures(<Condition as From<VersionSetId>>::from, (version_set,), condition),
    ensures
        condition is VersionSetId,
        condition.version_set() == Some(version_set),
        forall|back: VersionSetId| #[trigger]
            call_ensures(VersionSetId::from, (condition,), back) ==> back == version_set,
{
}

/// A name made into a condition is an extra: it holds no version set, so
/// taking one out of it is never allowed.
pub proof fn lemma_extra_holds_no_version_set(name: StringId, condition: Condition)
    requires
        call_ensures(<Condition as From<StringId>>::from, (name,), condition),
    ensures
        condition == Condition::Extra(name),
        !(condition is VersionSetId),
        condition.version_set() is None,
{
}

} // verus!
