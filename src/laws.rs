use vstd::prelude::*;

use crate::chain::{line_text, terminated, ErrorNode};
use crate::location::StaticLocationRef;

verus! {

/// A chain made only of located links renders one line per link, and the line
/// of the link at depth `i` carries the index `N - 1 - i` (so the indices run
/// down from `N - 1` to 0), that link's own text and that link's own location.
pub proof fn lemma_located_chain_lines(node: &ErrorNode)
    requires
        node.foreign_tail() is None,
    ensures
        node.lines().len() == node.links().len(),
        node.chain_len() == node.links().len(),
        forall|i: int|
            0 <= i < node.lines().len() ==> #[trigger] node.lines()[i] == line_text(
                (node.links().len() - 1 - i) as nat,
                node.links()[i].0,
                node.links()[i].1.text(),
            ),
{
}

/// Wrapping a node adds one line in front, with the wrapper's own text and the
/// location at which the wrapper was made, and leaves every line of the
/// wrapped chain as it was.
pub proof fn lemma_wrap_keeps_lines(
    cause: &ErrorNode,
    message: Seq<char>,
    location: StaticLocationRef,
    node: &ErrorNode,
)
    requires
        node.links() == seq![(message, location)] + cause.links(),
        node.foreign_tail() == cause.foreign_tail(),
    ensures
        node.chain_len() == cause.chain_len() + 1,
        node.lines().len() == cause.lines().len() + 1,
        node.lines()[0] == line_text(cause.chain_len(), message, location.text()),
        forall|i: int|
            0 <= i < cause.lines().len() ==> #[trigger] node.lines()[i + 1] == cause.lines()[i],
{
    let n = node.lines();
    let c = cause.lines();
    assert forall|i: int| 0 <= i < c.len() implies #[trigger] n[i + 1] == c[i] by {
        if i < cause.links().len() {
            assert(node.links()[i + 1] == cause.links()[i]);
        }
    }
}

/// A leaf renders to exactly one line, with index 0, its own text and its own
/// location.
pub proof fn lemma_leaf_single_line(node: &ErrorNode, message: Seq<char>, location: StaticLocationRef)
    requires
        node.links() == seq![(message, location)],
        node.foreign_tail() is None,
    ensures
        node.lines() == seq![line_text(0, message, location.text())],
{
    assert(node.lines() =~= seq![line_text(0, message, location.text())]);
}

/// A chain that ends in a foreign error renders that error's text, without a
/// location, as its last line, after one line per located link.
pub proof fn lemma_foreign_last_line(node: &ErrorNode, foreign: Seq<char>)
    requires
        node.foreign_tail() == Some(foreign),
    ensures
        node.lines().len() == node.chain_len(),
        node.chain_len() == node.links().len() + 1,
        node.lines().last() == foreign,
{
}

/// Rendering reads the chain and nothing else: two renderings of one node are
/// the same text.
pub proof fn lemma_render_stable(node: &ErrorNode, first: Seq<char>, second: Seq<char>)
    requires
        first == terminated(node.lines()),
        second == terminated(node.lines()),
    ensures
        first == second,
{
}

} // verus!
