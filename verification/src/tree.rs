//! The syntax tree the analyzer works on.
//!
//! A `SyntaxNode` holds, as plain values, everything the analysis reads
//! from a parsed tree: the node's kind tag, its start position, the
//! source text it spans, and its children in order.

use vstd::prelude::*;

verus! {

/// One node of a parsed syntax tree.
///
/// `kind` is the grammar's tag for the node (for example
/// `"function_item"`); `start_row` and `start_col` are 0-based; `text`
/// is the source text the node spans; `children` are in source order.
pub struct SyntaxNode {
    pub kind: String,
    pub start_row: u64,
    pub start_col: u64,
    pub text: String,
    pub children: Vec<SyntaxNode>,
}

/// Total number of nodes in the subtree rooted at `n`, the root itself
/// counted.
pub open spec fn node_count(n: SyntaxNode) -> nat
    decreases n,
{
    1 + node_count_seq(n.children@)
}

/// Total number of nodes over a sequence of sibling subtrees.
pub open spec fn node_count_seq(s: Seq<SyntaxNode>) -> nat
    decreases s,
{
    if s.len() == 0 {
        0
    } else {
        node_count(s[0]) + node_count_seq(s.drop_first())
    }
}

/// Appending one subtree to a sequence of siblings adds its node count.
pub proof fn lemma_node_count_seq_push(s: Seq<SyntaxNode>, x: SyntaxNode)
    ensures
        node_count_seq(s.push(x)) == node_count_seq(s) + node_count(x),
    decreases s,
{
    let t = s.push(x);
    assert(t.len() == s.len() + 1);
    if s.len() == 0 {
        assert(t[0] == x);
        assert(t.drop_first() =~= Seq::<SyntaxNode>::empty());
        assert(node_count_seq(t) == node_count(x) + node_count_seq(t.drop_first()));
        assert(node_count_seq(t.drop_first()) == 0);
    } else {
        assert(t[0] == s[0]);
        assert(t.drop_first() =~= s.drop_first().push(x));
        lemma_node_count_seq_push(s.drop_first(), x);
        assert(node_count_seq(t) == node_count(s[0]) + node_count_seq(t.drop_first()));
        assert(node_count_seq(s) == node_count(s[0]) + node_count_seq(s.drop_first()));
    }
}

/// A prefix one longer counts the extra subtree as well.
pub proof fn lemma_node_count_seq_take_step(s: Seq<SyntaxNode>, i: int)
    requires
        0 <= i < s.len(),
    ensures
        node_count_seq(s.take(i + 1)) == node_count_seq(s.take(i)) + node_count(s[i]),
{
    assert(s.take(i + 1) =~= s.take(i).push(s[i]));
    lemma_node_count_seq_push(s.take(i), s[i]);
}

} // verus!
