//! Pattern detection for inefficient code.
//!
//! Each detector is a pure function of the source text and a
//! function's subtree, emitting zero or more tags; detectors never
//! mutate the tree and never communicate with each other, so new ones
//! compose without touching existing ones. The one detector here flags
//! deep loop nesting.

use vstd::prelude::*;
use crate::tree::SyntaxNode;

verus! {

/// A named inefficiency signature.
#[derive(Clone, Copy, PartialEq, Eq, Structural, Debug)]
pub enum PatternTag {
    /// Loops nested at least [`NESTED_LOOP_THRESHOLD`] deep.
    NestedLoops,
    /// A spin loop that burns cycles instead of sleeping.
    BusyWait,
    /// One allocation far larger than it needs to be.
    LargeAllocation,
}

/// Loop nesting at or past this depth is flagged.
pub const NESTED_LOOP_THRESHOLD: u64 = 3;

/// Loop-depth counts saturate here; no real syntax tree comes near it.
pub const LOOP_DEPTH_CAP: u64 = 1_000_000_000;

/// Whether a node kind denotes a loop, across the supported languages.
pub open spec fn is_loop_kind(kind: Seq<char>) -> bool {
    ||| kind == "for_expression"@
    ||| kind == "while_expression"@
    ||| kind == "loop_expression"@
    ||| kind == "for_statement"@
    ||| kind == "while_statement"@
}

/// The deepest loop nesting within the subtree rooted at `n`: a loop
/// node adds one level above the deepest nesting among its children.
pub open spec fn loop_depth(n: SyntaxNode) -> nat
    decreases n,
{
    if is_loop_kind(n.kind@) {
        1 + max_loop_depth_seq(n.children@)
    } else {
        max_loop_depth_seq(n.children@)
    }
}

/// The deepest loop nesting among a sequence of sibling subtrees.
pub open spec fn max_loop_depth_seq(s: Seq<SyntaxNode>) -> nat
    decreases s,
{
    if s.len() == 0 {
        0
    } else {
        let rest = max_loop_depth_seq(s.drop_first());
        if loop_depth(s[0]) >= rest {
            loop_depth(s[0])
        } else {
            rest
        }
    }
}

proof fn lemma_max_loop_depth_seq_push(s: Seq<SyntaxNode>, x: SyntaxNode)
    ensures
        max_loop_depth_seq(s.push(x)) == if loop_depth(x) >= max_loop_depth_seq(s) {
            loop_depth(x)
        } else {
            max_loop_depth_seq(s)
        },
    decreases s,
{
    let t = s.push(x);
    assert(t.len() == s.len() + 1);
    if s.len() == 0 {
        assert(t[0] == x);
        assert(t.drop_first() =~= Seq::<SyntaxNode>::empty());
        assert(max_loop_depth_seq(t.drop_first()) == 0);
        assert(max_loop_depth_seq(t) == if loop_depth(t[0]) >= max_loop_depth_seq(
            t.drop_first(),
        ) {
            loop_depth(t[0])
        } else {
            max_loop_depth_seq(t.drop_first())
        });
    } else {
        assert(t[0] == s[0]);
        assert(t.drop_first() =~= s.drop_first().push(x));
        lemma_max_loop_depth_seq_push(s.drop_first(), x);
        assert(max_loop_depth_seq(t) == if loop_depth(t[0]) >= max_loop_depth_seq(
            t.drop_first(),
        ) {
            loop_depth(t[0])
        } else {
            max_loop_depth_seq(t.drop_first())
        });
        assert(max_loop_depth_seq(s) == if loop_depth(s[0]) >= max_loop_depth_seq(
            s.drop_first(),
        ) {
            loop_depth(s[0])
        } else {
            max_loop_depth_seq(s.drop_first())
        });
    }
}

proof fn lemma_max_loop_depth_seq_take_step(s: Seq<SyntaxNode>, i: int)
    requires
        0 <= i < s.len(),
    ensures
        max_loop_depth_seq(s.take(i + 1)) == if loop_depth(s[i]) >= max_loop_depth_seq(s.take(i)) {
            loop_depth(s[i])
        } else {
            max_loop_depth_seq(s.take(i))
        },
{
    assert(s.take(i + 1) =~= s.take(i).push(s[i]));
    lemma_max_loop_depth_seq_push(s.take(i), s[i]);
}

/// `d` held below the loop-depth cap.
pub open spec fn capped_depth(d: nat) -> nat {
    if d <= LOOP_DEPTH_CAP { d } else { LOOP_DEPTH_CAP as nat }
}

/// Whether a node's kind denotes a loop.
fn is_loop_node(n: &SyntaxNode) -> (r: bool)
    ensures
        r == is_loop_kind(n.kind@),
{
    n.kind == "for_expression".to_owned() || n.kind == "while_expression".to_owned()
        || n.kind == "loop_expression".to_owned() || n.kind == "for_statement".to_owned()
        || n.kind == "while_statement".to_owned()
}

/// The deepest loop nesting within the subtree rooted at `n`,
/// saturating at [`LOOP_DEPTH_CAP`].
pub fn count_loop_depth(n: &SyntaxNode) -> (r: u64)
    ensures
        r == capped_depth(loop_depth(*n)),
    decreases *n,
{
    let mut deepest: u64 = 0;
    let mut i: usize = 0;
    while i < n.children.len()
        invariant
            0 <= i <= n.children.len(),
            deepest == capped_depth(max_loop_depth_seq(n.children@.take(i as int))),
        decreases n.children.len() - i,
    {
        let d = count_loop_depth(&n.children[i]);
        proof {
            lemma_max_loop_depth_seq_take_step(n.children@, i as int);
        }
        if d > deepest {
            deepest = d;
        }
        i = i + 1;
    }
    proof {
        assert(n.children@.take(n.children@.len() as int) =~= n.children@);
    }
    if is_loop_node(n) {
        if deepest >= LOOP_DEPTH_CAP {
            LOOP_DEPTH_CAP
        } else {
            deepest + 1
        }
    } else {
        deepest
    }
}

/// The tags detected in the subtree rooted at `node`: `NestedLoops`
/// exactly when the deepest loop nesting reaches the threshold.
pub open spec fn patterns_spec(node: SyntaxNode) -> Seq<PatternTag> {
    if loop_depth(node) >= NESTED_LOOP_THRESHOLD {
        seq![PatternTag::NestedLoops]
    } else {
        Seq::empty()
    }
}

/// Run every registered detector over a function's subtree and collect
/// the tags, in detector registration order.
pub fn detect_patterns(_source: &str, node: &SyntaxNode) -> (r: Vec<PatternTag>)
    ensures
        r@ == patterns_spec(*node),
{
    let mut tags: Vec<PatternTag> = Vec::new();
    let depth = count_loop_depth(node);
    if depth >= NESTED_LOOP_THRESHOLD {
        tags.push(PatternTag::NestedLoops);
    }
    proof {
        if loop_depth(*node) >= NESTED_LOOP_THRESHOLD {
            assert(tags@ =~= seq![PatternTag::NestedLoops]);
        } else {
            assert(tags@ =~= Seq::<PatternTag>::empty());
        }
    }
    tags
}

/// The pattern boundary: nesting below the threshold never emits
/// `NestedLoops`, nesting at or past it always does.
pub proof fn lemma_nested_loop_boundary(node: SyntaxNode)
    ensures
        loop_depth(node) < NESTED_LOOP_THRESHOLD ==> !patterns_spec(node).contains(
            PatternTag::NestedLoops,
        ),
        loop_depth(node) >= NESTED_LOOP_THRESHOLD ==> patterns_spec(node).contains(
            PatternTag::NestedLoops,
        ),
{
    if loop_depth(node) >= NESTED_LOOP_THRESHOLD {
        assert(patterns_spec(node)[0] == PatternTag::NestedLoops);
    }
}

} // verus!
