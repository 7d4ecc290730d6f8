//! Name and location extraction.
//!
//! A function-like node is reported at its 1-based line and column; a
//! best-effort name is the text of the first immediate child whose
//! kind is `identifier`, absent for anonymous functions.

use vstd::prelude::*;
use crate::tree::SyntaxNode;

verus! {

/// A human-readable place in the analyzed source.
pub struct CodeLocation {
    pub file: String,
    pub line: u64,
    pub column: u64,
    pub name: Option<String>,
}

/// The mathematical image of a [`CodeLocation`].
pub struct CodeLocationView {
    pub file: Seq<char>,
    pub line: u64,
    pub column: u64,
    pub name: Option<Seq<char>>,
}

impl View for CodeLocation {
    type V = CodeLocationView;

    open spec fn view(&self) -> CodeLocationView {
        CodeLocationView {
            file: self.file@,
            line: self.line,
            column: self.column,
            name: match self.name {
                Some(n) => Some(n@),
                None => None,
            },
        }
    }
}

/// A 0-based position made 1-based, saturating at the integer limit.
pub open spec fn one_based(x: u64) -> u64 {
    if x == u64::MAX {
        u64::MAX
    } else {
        (x + 1) as u64
    }
}

/// The text of the first subtree in `s` whose root is an `identifier`.
pub open spec fn first_identifier(s: Seq<SyntaxNode>) -> Option<Seq<char>>
    decreases s,
{
    if s.len() == 0 {
        None
    } else if s[0].kind@ == "identifier"@ {
        Some(s[0].text@)
    } else {
        first_identifier(s.drop_first())
    }
}

/// The extracted name of a function-like node: the text of its first
/// immediate `identifier` child, if any.
pub open spec fn name_spec(n: SyntaxNode) -> Option<Seq<char>> {
    first_identifier(n.children@)
}

/// The location derived for a function-like node.
pub open spec fn location_spec(n: SyntaxNode) -> CodeLocationView {
    CodeLocationView {
        file: "<source>"@,
        line: one_based(n.start_row),
        column: one_based(n.start_col),
        name: name_spec(n),
    }
}

/// Scan the immediate children of `node` left to right for the first
/// `identifier`; its text is the function's name.
pub fn extract_function_name(node: &SyntaxNode) -> (r: Option<String>)
    ensures
        match r {
            Some(s) => name_spec(*node) == Some(s@),
            None => name_spec(*node) is None,
        },
{
    let mut i: usize = 0;
    proof {
        assert(node.children@.skip(0) =~= node.children@);
    }
    while i < node.children.len()
        invariant
            0 <= i <= node.children.len(),
            first_identifier(node.children@) == first_identifier(node.children@.skip(i as int)),
        decreases node.children.len() - i,
    {
        proof {
            assert(node.children@.skip(i as int)[0] == node.children@[i as int]);
            assert(node.children@.skip(i as int).drop_first() =~= node.children@.skip(
                i as int + 1,
            ));
        }
        if node.children[i].kind == "identifier".to_owned() {
            return Some(node.children[i].text.clone());
        }
        i = i + 1;
    }
    proof {
        assert(node.children@.skip(node.children@.len() as int) =~= Seq::<SyntaxNode>::empty());
    }
    None
}

/// Derive the location of a function-like node: 1-based line and
/// column plus the best-effort name.
pub fn node_location(node: &SyntaxNode) -> (r: Option<CodeLocation>)
    ensures
        r matches Some(l) && l@ == location_spec(*node),
{
    let name = extract_function_name(node);
    let line = if node.start_row == u64::MAX {
        u64::MAX
    } else {
        node.start_row + 1
    };
    let column = if node.start_col == u64::MAX {
        u64::MAX
    } else {
        node.start_col + 1
    };
    Some(CodeLocation { file: "<source>".to_owned(), line, column, name })
}

} // verus!
