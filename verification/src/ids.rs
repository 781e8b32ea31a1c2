//! Handles of interned values.
//!
//! A handle is an index into a table that an interner owns. It orders and
//! compares by that index alone, which says nothing of the order of the
//! values the table holds. A handle means something only to the interner
//! that gave it out, and only while that interner lives unchanged.

use std::cmp::Ordering;
use vstd::prelude::*;
use vstd::std_specs::cmp::PartialOrdSpecImpl;

verus! {

/// How two indices stand to each other.
pub open spec fn index_order(left: u32, right: u32) -> Ordering {
    if left < right {
        Ordering::Less
    } else if left == right {
        Ordering::Equal
    } else {
        Ordering::Greater
    }
}

/// Handle of an interned version set.
#[derive(Clone, Copy, Debug, PartialEq, Eq, Structural, Ord, Hash)]
pub struct VersionSetId(pub u32);

/// Handle of an interned, ordered group of version sets.
#[derive(Clone, Copy, Debug, PartialEq, Eq, Structural, Ord, Hash)]
pub struct VersionSetUnionId(pub u32);

/// Handle of an interned string.
#[derive(Clone, Copy, Debug, PartialEq, Eq, Structural, Ord, Hash)]
pub struct StringId(pub u32);

impl Default for VersionSetId {
    /// The handle of index zero.
    fn default() -> (id: Self)
        ensures
            id == VersionSetId(0),
    {
        VersionSetId(0)
    }
}

impl PartialOrd for VersionSetId {
    /// Orders two handles by their indices.
    fn partial_cmp(&self, other: &Self) -> (order: Option<Ordering>) {
        if self.0 < other.0 {
            Some(Ordering::Less)
        } else if self.0 == other.0 {
            Some(Ordering::Equal)
        } else {
            Some(Ordering::Greater)
        }
    }
}

impl PartialOrdSpecImpl for VersionSetId {
    open spec fn obeys_partial_cmp_spec() -> bool {
        true
    }

    open spec fn partial_cmp_spec(&self, other: &Self) -> Option<Ordering> {
        Some(index_order(self.0, other.0))
    }
}

impl Default for VersionSetUnionId {
    /// The handle of index zero.
    fn default() -> (id: Self)
        ensures
            id == VersionSetUnionId(0),
    {
        VersionSetUnionId(0)
    }
}

impl PartialOrd for VersionSetUnionId {
    /// Orders two handles by their indices.
    fn partial_cmp(&self, other: &Self) -> (order: Option<Ordering>) {
        if self.0 < other.0 {
            Some(Ordering::Less)
        } else if self.0 == other.0 {
            Some(Ordering::Equal)
        } else {
            Some(Ordering::Greater)
        }
    }
}

impl PartialOrdSpecImpl for VersionSetUnionId {
    open spec fn obeys_partial_cmp_spec() -> bool {
        true
    }

    open spec fn partial_cmp_spec(&self, other: &Self) -> Option<Ordering> {
        Some(index_order(self.0, other.0))
    }
}

impl Default for StringId {
    /// The handle of index zero.
    fn default() -> (id: Self)
        ensures
            id == StringId(0),
    {
        StringId(0)
    }
}

impl PartialOrd for StringId {
    /// Orders two handles by their indices.
    fn partial_cmp(&self, other: &Self) -> (order: Option<Ordering>) {
        if self.0 < other.0 {
            Some(Ordering::Less)
        } else if self.0 == other.0 {
            Some(Ordering::Equal)
        } else {
            Some(Ordering::Greater)
        }
    }
}

impl PartialOrdSpecImpl for StringId {
    open spec fn obeys_partial_cmp_spec() -> bool {
        true
    }

    open spec fn partial_cmp_spec(&self, other: &Self) -> Option<Ordering> {
        Some(index_order(self.0, other.0))
    }
}

} // verus!
