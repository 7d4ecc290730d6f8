//! Tests of the tree-level analysis pipeline on hand-built trees.

use sustainabot_analysis::Analyzer;
use sustainabot_analysis::LanguageProfile;
use sustainabot_analysis::SyntaxNode;
use sustainabot_analysis::complexity::estimate_complexity;
use sustainabot_analysis::patterns::PatternTag;
use sustainabot_analysis::patterns::count_loop_depth;
use sustainabot_analysis::patterns::detect_patterns;
use sustainabot_analysis::recommend::generate_recommendations;

fn node(kind: &str, children: Vec<SyntaxNode>) -> SyntaxNode {
    SyntaxNode {
        kind: kind.to_string(),
        start_row: 0,
        start_col: 0,
        text: String::new(),
        children,
    }
}

fn named(kind: &str, text: &str, children: Vec<SyntaxNode>) -> SyntaxNode {
    SyntaxNode {
        kind: kind.to_string(),
        start_row: 0,
        start_col: 0,
        text: text.to_string(),
        children,
    }
}

/// A function node holding a triple-nested loop, seven nodes in all.
fn triple_loop_function() -> SyntaxNode {
    node(
        "function_item",
        vec![node(
            "for_expression",
            vec![node(
                "for_expression",
                vec![node(
                    "for_expression",
                    vec![node("block", vec![]), node("block", vec![]), node("block", vec![])],
                )],
            )],
        )],
    )
}

#[test]
fn complexity_counts_every_node() {
    let tree = triple_loop_function();
    assert_eq!(estimate_complexity(&tree), 7);
}

#[test]
fn complexity_of_bare_node_is_one() {
    let leaf = node("function_item", vec![]);
    assert_eq!(estimate_complexity(&leaf), 1);
}

#[test]
fn triple_nested_loop_scenario() {
    let tree = triple_loop_function();
    let analyzer = Analyzer::new(LanguageProfile::rust());
    let results = analyzer.analyze_tree("", &tree);
    assert_eq!(results.len(), 1);
    let r = &results[0];
    // 7 complexity units: 0.7 J, 3.5 ms, 14 KB.
    assert_eq!(r.resources.energy_millijoules, 700);
    assert_eq!(r.resources.duration_microseconds, 3500);
    assert_eq!(r.resources.memory_kilobytes, 14);
    assert_eq!(r.resources.carbon_nanograms, 92360);
    assert_eq!(
        r.recommendations,
        vec!["Consider algorithm optimization to reduce nested iterations".to_string()]
    );
    assert_eq!(r.health.eco_score, 1000);
    assert_eq!(r.health.econ_score, 965);
    assert_eq!(r.health.quality_score, 979);
    assert_eq!(r.health.overall, 981);
}

#[test]
fn empty_function_scenario() {
    let tree = node("function_item", vec![]);
    let analyzer = Analyzer::new(LanguageProfile::rust());
    let results = analyzer.analyze_tree("", &tree);
    assert_eq!(results.len(), 1);
    let r = &results[0];
    assert_eq!(r.resources.energy_millijoules, 100);
    assert_eq!(
        r.recommendations,
        vec!["Code looks efficient - keep up the good work!".to_string()]
    );
}

#[test]
fn two_nested_loops_emit_no_tag() {
    let tree = node(
        "function_item",
        vec![node("for_expression", vec![node("while_expression", vec![])])],
    );
    assert_eq!(count_loop_depth(&tree), 2);
    assert_eq!(detect_patterns("", &tree), vec![]);
}

#[test]
fn three_nested_loops_emit_nested_loops() {
    let tree = node(
        "function_item",
        vec![node(
            "for_expression",
            vec![node("while_expression", vec![node("loop_expression", vec![])])],
        )],
    );
    assert_eq!(count_loop_depth(&tree), 3);
    assert_eq!(detect_patterns("", &tree), vec![PatternTag::NestedLoops]);
}

#[test]
fn anonymous_function_has_no_name() {
    let tree = node("arrow_function", vec![node("formal_parameters", vec![])]);
    let analyzer = Analyzer::new(LanguageProfile::javascript());
    let results = analyzer.analyze_tree("", &tree);
    assert_eq!(results.len(), 1);
    assert_eq!(results[0].location.name, None);
}

#[test]
fn named_function_location() {
    let mut f = named("function_item", "fn main() {}", vec![named("identifier", "main", vec![])]);
    f.start_row = 4;
    f.start_col = 8;
    let analyzer = Analyzer::new(LanguageProfile::rust());
    let results = analyzer.analyze_tree("", &f);
    assert_eq!(results.len(), 1);
    assert_eq!(results[0].location.name.as_deref(), Some("main"));
    assert_eq!(results[0].location.line, 5);
    assert_eq!(results[0].location.column, 9);
    assert_eq!(results[0].location.file, "<source>");
}

#[test]
fn walk_is_preorder_and_counts_functions() {
    let a = named("function_item", "", vec![named("identifier", "a", vec![])]);
    let c = named("function_item", "", vec![named("identifier", "c", vec![])]);
    let b = SyntaxNode {
        kind: "function_item".to_string(),
        start_row: 0,
        start_col: 0,
        text: String::new(),
        children: vec![named("identifier", "b", vec![]), node("block", vec![c])],
    };
    let root = node("source_file", vec![a, b, node("use_declaration", vec![])]);
    let analyzer = Analyzer::new(LanguageProfile::rust());
    let results = analyzer.analyze_tree("", &root);
    assert_eq!(results.len(), 3);
    assert_eq!(results[0].location.name.as_deref(), Some("a"));
    assert_eq!(results[1].location.name.as_deref(), Some("b"));
    assert_eq!(results[2].location.name.as_deref(), Some("c"));
}

#[test]
fn javascript_profile_covers_its_kinds() {
    let analyzer = Analyzer::new(LanguageProfile::javascript());
    for kind in ["function_declaration", "arrow_function", "method_declaration"] {
        let tree = node(kind, vec![]);
        assert_eq!(analyzer.analyze_tree("", &tree).len(), 1);
    }
    let tree = node("function_item", vec![]);
    assert_eq!(analyzer.analyze_tree("", &tree).len(), 0);
}

#[test]
fn recommendations_keep_detection_order() {
    let tags = vec![PatternTag::BusyWait, PatternTag::NestedLoops, PatternTag::LargeAllocation];
    let recs = generate_recommendations(&tags);
    assert_eq!(
        recs,
        vec![
            "Replace busy-wait loop with async/await or blocking sleep".to_string(),
            "Consider algorithm optimization to reduce nested iterations".to_string(),
            "Review memory allocation - consider streaming or chunking".to_string(),
        ]
    );
}
