//! Text of version sets and of groups of them, for diagnostics.

use itertools::Itertools;
use vstd::prelude::*;

verus! {

/// The texts of `parts` in order, with `separator` between each two
/// neighbours: nothing before the first and nothing after the last.
pub open spec fn joined(parts: Seq<Seq<char>>, separator: Seq<char>) -> Seq<char>
    decreases parts.len(),
{
    if parts.len() == 0 {
        Seq::empty()
    } else if parts.len() == 1 {
        parts[0]
    } else {
        joined(parts.drop_last(), separator) + separator + parts.last()
    }
}

/// The text of one version set: the package name, one space, the constraint.
pub open spec fn named_constraint(name: Seq<char>, constraint: Seq<char>) -> Seq<char> {
    name + seq![' '] + constraint
}

/// What stands between the alternatives of a union.
pub open spec fn alternative_separator() -> Seq<char> {
    seq![' ', '|', ' ']
}

/// Calls `Itertools::format` on the strings of `parts` and collects what the
/// value it returns displays.
///
/// Trusted: the result holds every part in order, each as it is, and
/// `separator` between each two neighbours.
#[verifier::external_body]
fn format_separated(parts: &Vec<String>, separator: &str) -> (text: String)
    ensures
        text@ == joined(parts.deep_view(), separator@),
{
    format!("{}", parts.iter().format(separator))
}

/// Renders one version set from the text of its package name and of its
/// constraint.
pub fn render_version_set(name: &str, constraint: &str) -> (text: String)
    ensures
        text@ == named_constraint(name@, constraint@),
{
    let mut text = String::from_str(name);
    text.append(" ");
    text.append(constraint);
    proof {
        reveal_strlit(" ");
        assert(" "@ =~= seq![' ']);
    }
    text
}

/// Renders the alternatives of a union from the text of each member, in the
/// order given.
pub fn render_alternatives(members: &Vec<String>) -> (text: String)
    ensures
        text@ == joined(members.deep_view(), alternative_separator()),
{
    proof {
        reveal_strlit(" | ");
        assert(" | "@ =~= alternative_separator());
    }
    format_separated(members, " | ")
}

} // verus!
