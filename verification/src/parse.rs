//! The parsing boundary.
//!
//! The outside parser turns source text into a syntax tree; everything
//! after that point works on the library's own [`SyntaxNode`] values.
//! Each grammar's parse is a pure function of the source text alone,
//! so its result carries a name that the callers' contracts go
//! through; nothing more is assumed of the tree's shape.

use vstd::prelude::*;
use crate::language::Grammar;
use crate::tree::SyntaxNode;

verus! {

/// The tree that the Rust grammar assigns to a source text, `None`
/// when the parser fails; a function of the text alone.
pub uninterp spec fn rust_parse_tree(source: Seq<char>) -> Option<SyntaxNode>;

/// The tree that the JavaScript grammar assigns to a source text,
/// `None` when the parser fails; a function of the text alone.
pub uninterp spec fn javascript_parse_tree(source: Seq<char>) -> Option<SyntaxNode>;

/// The tree a grammar assigns to a source text.
pub open spec fn parse_tree_spec(grammar: Grammar, source: Seq<char>) -> Option<SyntaxNode> {
    match grammar {
        Grammar::Rust => rust_parse_tree(source),
        Grammar::JavaScript => javascript_parse_tree(source),
    }
}

#[verifier::external_type_specification]
#[verifier::external_body]
pub struct ExNode<'a>(tree_sitter::Node<'a>);

/// Relies on tree_sitter::Node: `kind`, `start_position`, `child` and
/// `utf8_text` read one node; the subtree is copied into the
/// library's own values, children in order.
#[verifier::external_body]
fn convert_node(node: tree_sitter::Node<'_>, source: &[u8]) -> SyntaxNode {
    let mut children = Vec::new();
    for i in 0..node.child_count() {
        if let Some(child) = node.child(i) {
            children.push(convert_node(child, source));
        }
    }
    SyntaxNode {
        kind: node.kind().to_string(),
        start_row: node.start_position().row as u64,
        start_col: node.start_position().column as u64,
        text: node.utf8_text(source).unwrap_or("").to_string(),
        children,
    }
}

/// Relies on tree_sitter::Parser::parse under the tree-sitter-rust
/// grammar: parsing is deterministic in the source text, and `None`
/// comes only from parser failure.
#[verifier::external_body]
fn parse_rust(source: &str) -> (r: Option<SyntaxNode>)
    ensures
        r == rust_parse_tree(source@),
{
    let mut parser = tree_sitter::Parser::new();
    let language = tree_sitter::Language::new(tree_sitter_rust::LANGUAGE);
    if parser.set_language(&language).is_err() {
        return None;
    }
    let tree = parser.parse(source, None)?;
    Some(convert_node(tree.root_node(), source.as_bytes()))
}

/// Relies on tree_sitter::Parser::parse under the
/// tree-sitter-javascript grammar: parsing is deterministic in the
/// source text, and `None` comes only from parser failure.
#[verifier::external_body]
fn parse_javascript(source: &str) -> (r: Option<SyntaxNode>)
    ensures
        r == javascript_parse_tree(source@),
{
    let mut parser = tree_sitter::Parser::new();
    let language = tree_sitter::Language::new(tree_sitter_javascript::LANGUAGE);
    if parser.set_language(&language).is_err() {
        return None;
    }
    let tree = parser.parse(source, None)?;
    Some(convert_node(tree.root_node(), source.as_bytes()))
}

/// Parse a source text under the given grammar into the library's own
/// tree.
pub fn parse_source(grammar: Grammar, source: &str) -> (r: Option<SyntaxNode>)
    ensures
        r == parse_tree_spec(grammar, source@),
{
    match grammar {
        Grammar::Rust => parse_rust(source),
        Grammar::JavaScript => parse_javascript(source),
    }
}

} // verus!
