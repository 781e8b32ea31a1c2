//! Requirements and conditions of a dependency edge, as a resolver sees them.
//!
//! A requirement names the version sets that may satisfy an edge, by handles
//! into a table that an [`Interner`] owns. A conditional requirement adds the
//! conditions under which the edge is part of the graph at all.

pub mod condition;
pub mod conditional;
pub mod ids;
pub mod interner;
pub mod render;
pub mod requirement;

pub use condition::Condition;
pub use conditional::ConditionalRequirement;
pub use ids::{StringId, VersionSetId, VersionSetUnionId};
pub use interner::Interner;
pub use requirement::Requirement;
