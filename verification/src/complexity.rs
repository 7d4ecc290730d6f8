//! The structural complexity metric.
//!
//! Complexity of a function-like node is the total number of nodes in
//! its subtree, the node itself counted, so it is always at least 1.
//! It is a proxy for structural complexity, purely a function of tree
//! shape. To keep every later computation inside machine integers the
//! count saturates at [`COMPLEXITY_CAP`], far beyond any real source
//! file.

use vstd::prelude::*;
use crate::tree::SyntaxNode;
use crate::tree::node_count;
use crate::tree::node_count_seq;
use crate::tree::lemma_node_count_seq_take_step;

verus! {

/// Node counts saturate here; no real syntax tree comes near it.
pub const COMPLEXITY_CAP: u64 = 1_000_000_000;

/// `c` held below the saturation cap.
pub open spec fn capped(c: nat) -> nat {
    if c <= COMPLEXITY_CAP { c } else { COMPLEXITY_CAP as nat }
}

/// The complexity metric of the subtree rooted at `n`: its node count,
/// saturated at the cap.
pub open spec fn complexity_spec(n: SyntaxNode) -> nat {
    capped(node_count(n))
}

/// Complexity is never below 1: a node always counts itself.
pub proof fn lemma_complexity_at_least_one(n: SyntaxNode)
    ensures
        1 <= complexity_spec(n),
        complexity_spec(n) <= COMPLEXITY_CAP,
{
}

/// Count the nodes of the subtree rooted at `n`, saturating at
/// [`COMPLEXITY_CAP`].
pub fn estimate_complexity(n: &SyntaxNode) -> (r: u64)
    ensures
        r == complexity_spec(*n),
        1 <= r <= COMPLEXITY_CAP,
    decreases *n,
{
    let mut total: u64 = 1;
    let mut i: usize = 0;
    while i < n.children.len()
        invariant
            0 <= i <= n.children.len(),
            total == capped(1 + node_count_seq(n.children@.take(i as int))),
        decreases n.children.len() - i,
    {
        let c = estimate_complexity(&n.children[i]);
        proof {
            lemma_node_count_seq_take_step(n.children@, i as int);
        }
        total = total + c;
        if total > COMPLEXITY_CAP {
            total = COMPLEXITY_CAP;
        }
        i = i + 1;
    }
    proof {
        assert(n.children@.take(n.children@.len() as int) =~= n.children@);
    }
    total
}

} // verus!
