//! The lookups that requirements need from the table behind their handles.

use vstd::prelude::*;

use crate::ids::{StringId, VersionSetId, VersionSetUnionId};

verus! {

/// Read access to the table that handles point into.
///
/// What a handle stands for never changes while the interner lives, so every
/// lookup is a function of the interner and the handle. The spec functions
/// name those functions, and each executable method returns what its spec
/// function says.
///
/// A verified implementation defines the four spec functions from what its
/// table holds and proves the four methods against them. Their bodies here
/// say nothing, so that an implementation in plain Rust has only the four
/// methods to write; that its lookups do not change from call to call is
/// then taken on trust, and everything proved of a requirement rests on it.
///
/// Whether a handle came from this interner is not checked here: what a
/// lookup does with a foreign handle is the implementation's affair.
pub trait Interner {
    /// The version sets that a union stands for, in the order they were
    /// stored in.
    open spec fn union_members(&self, union: VersionSetUnionId) -> Seq<VersionSetId> {
        arbitrary()
    }

    /// The handle of the name of the package that a version set constrains.
    open spec fn name_of(&self, version_set: VersionSetId) -> StringId {
        arbitrary()
    }

    /// The text of an interned name.
    open spec fn name_text(&self, name: StringId) -> Seq<char> {
        arbitrary()
    }

    /// The human-readable constraint of a version set.
    open spec fn constraint_text(&self, version_set: VersionSetId) -> Seq<char> {
        arbitrary()
    }

    /// Returns the members of a union, in stored order.
    fn version_sets_in_union(&self, union: VersionSetUnionId) -> (members: Vec<VersionSetId>)
        ensures
            members@ == self.union_members(union),
    ;

    /// Returns the handle of the name of the package that a version set
    /// constrains.
    fn version_set_name(&self, version_set: VersionSetId) -> (name: StringId)
        ensures
            name == self.name_of(version_set),
    ;

    /// Returns the text of an interned name.
    fn display_name(&self, name: StringId) -> (text: String)
        ensures
            text@ == self.name_text(name),
    ;

    /// Returns the human-readable constraint of a version set.
    fn display_version_set(&self, version_set: VersionSetId) -> (text: String)
        ensures
            text@ == self.constraint_text(version_set),
    ;
}

} // verus!
