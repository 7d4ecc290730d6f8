//! Language profiles.
//!
//! Which node kinds denote a function-like construct is a per-language
//! capability, carried as a plain set of kind tags injected at
//! construction; adding a language means adding a profile, nothing
//! else. The profile also names the grammar that backs parsing for
//! that language.

use vstd::prelude::*;
use crate::tree::SyntaxNode;

verus! {

/// The parser grammar that backs a profile.
#[derive(Clone, Copy, PartialEq, Eq, Structural, Debug)]
pub enum Grammar {
    Rust,
    JavaScript,
}

/// Whether `kind` occurs among `kinds`.
pub open spec fn kind_in(kinds: Seq<String>, kind: Seq<char>) -> bool {
    exists|i: int| 0 <= i < kinds.len() && kinds[i]@ == kind
}

/// A language profile: the grammar to parse with and the node kinds
/// that denote a function-like construct in that language.
#[derive(Clone, Debug)]
pub struct LanguageProfile {
    pub grammar: Grammar,
    pub function_kinds: Vec<String>,
}

impl LanguageProfile {
    /// Whether a node of this kind is function-like under the profile.
    pub open spec fn spec_is_function_kind(self, kind: Seq<char>) -> bool {
        kind_in(self.function_kinds@, kind)
    }

    /// Whether `n` is a function-like node under the profile.
    pub fn is_function_node(&self, n: &SyntaxNode) -> (r: bool)
        ensures
            r == self.spec_is_function_kind(n.kind@),
    {
        let mut i: usize = 0;
        while i < self.function_kinds.len()
            invariant
                0 <= i <= self.function_kinds.len(),
                forall|j: int| 0 <= j < i ==> self.function_kinds@[j]@ != n.kind@,
            decreases self.function_kinds.len() - i,
        {
            if self.function_kinds[i] == n.kind {
                return true;
            }
            i = i + 1;
        }
        false
    }

    /// The profile for Rust sources: free functions and methods are
    /// `function_item` nodes.
    pub fn rust() -> (r: LanguageProfile)
        ensures
            r.grammar == Grammar::Rust,
            r.function_kinds@.len() == 1,
            r.function_kinds@[0]@ == "function_item"@,
    {
        let mut function_kinds: Vec<String> = Vec::new();
        function_kinds.push("function_item".to_owned());
        LanguageProfile { grammar: Grammar::Rust, function_kinds }
    }

    /// The profile for JavaScript sources: function declarations,
    /// arrow functions and method declarations.
    pub fn javascript() -> (r: LanguageProfile)
        ensures
            r.grammar == Grammar::JavaScript,
            r.function_kinds@.len() == 3,
            r.function_kinds@[0]@ == "function_declaration"@,
            r.function_kinds@[1]@ == "arrow_function"@,
            r.function_kinds@[2]@ == "method_declaration"@,
    {
        let mut function_kinds: Vec<String> = Vec::new();
        function_kinds.push("function_declaration".to_owned());
        function_kinds.push("arrow_function".to_owned());
        function_kinds.push("method_declaration".to_owned());
        LanguageProfile { grammar: Grammar::JavaScript, function_kinds }
    }

    /// Detect a profile from a file extension: `rs` is Rust, `js` is
    /// JavaScript, anything else is unsupported.
    pub fn for_extension(extension: &str) -> (r: Option<LanguageProfile>)
        ensures
            extension@ == "rs"@ ==> (r matches Some(p) && p.grammar == Grammar::Rust),
            extension@ == "js"@ ==> (r matches Some(p) && p.grammar == Grammar::JavaScript),
            extension@ != "rs"@ && extension@ != "js"@ ==> r is None,
    {
        proof {
            reveal_strlit("rs");
            reveal_strlit("js");
            assert("rs"@[0] == 'r' && "js"@[0] == 'j');
            assert("rs"@ != "js"@);
        }
        let ext = extension.to_owned();
        if ext == "rs".to_owned() {
            Some(LanguageProfile::rust())
        } else if ext == "js".to_owned() {
            Some(LanguageProfile::javascript())
        } else {
            None
        }
    }
}

} // verus!
