//! AST-driven static analyzer for ecological and economic code metrics.
//!
//! Given a syntax tree, the library locates function-like constructs,
//! derives a structural complexity metric for each, detects known
//! inefficiency patterns, turns complexity into an estimated resource
//! profile (energy, time, memory, derived carbon), reduces that profile
//! into normalized quality scores, and emits per-function advisory
//! recommendations.

pub mod analyzer;
pub mod complexity;
pub mod language;
pub mod location;
pub mod metrics;
pub mod parse;
pub mod patterns;
pub mod policy;
pub mod recommend;
pub mod score;
pub mod text;
pub mod tree;

pub use analyzer::AnalysisResult;
pub use analyzer::Analyzer;
pub use analyzer::analyze_source;
pub use language::LanguageProfile;
pub use tree::SyntaxNode;
