//! Tests of the full pipeline through the real parsers.

use sustainabot_analysis::Analyzer;
use sustainabot_analysis::LanguageProfile;
use sustainabot_analysis::analyze_source;

#[test]
fn rust_function_is_found_and_named() {
    let source = "fn main() {\n    let x = 1;\n}\n";
    let results = analyze_source(source, LanguageProfile::rust()).unwrap();
    assert_eq!(results.len(), 1);
    let r = &results[0];
    assert_eq!(r.location.name.as_deref(), Some("main"));
    assert_eq!(r.location.line, 1);
    assert_eq!(r.location.column, 1);
    // A real parse yields a subtree well beyond the bare node.
    assert!(r.resources.energy_millijoules >= 100);
}

#[test]
fn rust_triple_loop_gets_the_advisory() {
    let source = "fn hot() {\n    for a in 0..9 {\n        for b in 0..9 {\n            for c in 0..9 {\n                let _ = a + b + c;\n            }\n        }\n    }\n}\n";
    let results = analyze_source(source, LanguageProfile::rust()).unwrap();
    assert_eq!(results.len(), 1);
    assert_eq!(
        results[0].recommendations,
        vec!["Consider algorithm optimization to reduce nested iterations".to_string()]
    );
}

#[test]
fn rust_double_loop_gets_no_advisory() {
    let source = "fn warm() {\n    for a in 0..9 {\n        for b in 0..9 {\n            let _ = a + b;\n        }\n    }\n}\n";
    let results = analyze_source(source, LanguageProfile::rust()).unwrap();
    assert_eq!(results.len(), 1);
    assert_eq!(
        results[0].recommendations,
        vec!["Code looks efficient - keep up the good work!".to_string()]
    );
}

#[test]
fn javascript_functions_are_found() {
    let source = "function greet(name) {\n    return name;\n}\n";
    let results = analyze_source(source, LanguageProfile::javascript()).unwrap();
    assert_eq!(results.len(), 1);
    assert_eq!(results[0].location.name.as_deref(), Some("greet"));
}

#[test]
fn javascript_arrow_function_is_anonymous() {
    let source = "const f = (x) => x + 1;\n";
    let results = analyze_source(source, LanguageProfile::javascript()).unwrap();
    assert_eq!(results.len(), 1);
    assert_eq!(results[0].location.name, None);
}

#[test]
fn repeated_analysis_is_deterministic() {
    let source = "fn a() {}\nfn b() { for i in 0..3 { let _ = i; } }\n";
    let first = analyze_source(source, LanguageProfile::rust()).unwrap();
    let second = analyze_source(source, LanguageProfile::rust()).unwrap();
    assert_eq!(first.len(), second.len());
    for (x, y) in first.iter().zip(second.iter()) {
        assert_eq!(x.location.name, y.location.name);
        assert_eq!(x.location.line, y.location.line);
        assert_eq!(x.location.column, y.location.column);
        assert_eq!(x.resources.energy_millijoules, y.resources.energy_millijoules);
        assert_eq!(x.resources.duration_microseconds, y.resources.duration_microseconds);
        assert_eq!(x.resources.memory_kilobytes, y.resources.memory_kilobytes);
        assert_eq!(x.resources.carbon_nanograms, y.resources.carbon_nanograms);
        assert_eq!(x.health, y.health);
        assert_eq!(x.recommendations, y.recommendations);
    }
}

#[test]
fn method_calls_on_analyzer_match_the_free_function() {
    let source = "fn solo() {}\n";
    let analyzer = Analyzer::new(LanguageProfile::rust());
    let via_method = analyzer.analyze_source(source).unwrap();
    let via_free = analyze_source(source, LanguageProfile::rust()).unwrap();
    assert_eq!(via_method.len(), via_free.len());
    assert_eq!(via_method[0].location.name, via_free[0].location.name);
}

#[test]
fn empty_source_has_no_functions() {
    let results = analyze_source("", LanguageProfile::rust()).unwrap();
    assert_eq!(results.len(), 0);
}

#[test]
fn extensions_pick_profiles() {
    assert!(LanguageProfile::for_extension("rs").is_some());
    assert!(LanguageProfile::for_extension("js").is_some());
    assert!(LanguageProfile::for_extension("py").is_none());
}
