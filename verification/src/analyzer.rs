//! The analysis engine.
//!
//! A pre-order depth-first walk visits every node of the tree exactly
//! once; each function-like node (per the active language profile)
//! yields one [`AnalysisResult`], in traversal order. The whole
//! pipeline is a pure function of the tree and the analyzer's
//! configuration, so repeated analyses of identical input give
//! identical results.

use vstd::prelude::*;
use crate::complexity::complexity_spec;
use crate::complexity::estimate_complexity;
use crate::language::LanguageProfile;
use crate::location::CodeLocation;
use crate::location::CodeLocationView;
use crate::location::location_spec;
use crate::location::node_location;
use crate::metrics::CarbonIntensity;
use crate::metrics::ResourceProfile;
use crate::metrics::estimate_resources;
use crate::metrics::resources_spec;
use crate::parse::parse_source;
use crate::parse::parse_tree_spec;
use crate::patterns::detect_patterns;
use crate::patterns::patterns_spec;
use crate::recommend::generate_recommendations;
use crate::recommend::recommendations_spec;
use crate::recommend::strings_view;
use crate::score::AggregationWeights;
use crate::score::HealthIndex;
use crate::score::calculate_eco_score;
use crate::score::calculate_econ_score;
use crate::score::calculate_quality_score;
use crate::score::clamp_score;
use crate::score::eco_score_spec;
use crate::score::econ_score_spec;
use crate::score::overall_spec;
use crate::score::quality_score_spec;
use crate::tree::SyntaxNode;

verus! {

/// Everything reported about one function-like construct.
pub struct AnalysisResult {
    pub location: CodeLocation,
    pub resources: ResourceProfile,
    pub health: HealthIndex,
    pub recommendations: Vec<String>,
}

/// The mathematical image of an [`AnalysisResult`].
pub struct AnalysisResultView {
    pub location: CodeLocationView,
    pub resources: ResourceProfile,
    pub health: HealthIndex,
    pub recommendations: Seq<Seq<char>>,
}

impl View for AnalysisResult {
    type V = AnalysisResultView;

    open spec fn view(&self) -> AnalysisResultView {
        AnalysisResultView {
            location: self.location@,
            resources: self.resources,
            health: self.health,
            recommendations: strings_view(self.recommendations@),
        }
    }
}

/// The views of a vector of results.
pub open spec fn results_view(v: Seq<AnalysisResult>) -> Seq<AnalysisResultView> {
    v.map_values(|r: AnalysisResult| r@)
}

/// Why an analysis call failed as a whole.
#[derive(Clone, Copy, PartialEq, Eq, Structural, Debug)]
pub enum AnalysisError {
    /// The parser could not build a syntax tree.
    Parse,
}

impl AnalysisError {
    /// A short description of the failure.
    pub fn message(&self) -> (r: String)
        ensures
            r@ == "Failed to parse source"@,
    {
        "Failed to parse source".to_owned()
    }
}

/// The analysis engine: a language profile plus the injectable
/// scoring configuration.
pub struct Analyzer {
    pub profile: LanguageProfile,
    pub carbon_intensity: CarbonIntensity,
    pub weights: AggregationWeights,
}

/// The result owed to one function-like node.
pub open spec fn analysis_of(a: Analyzer, n: SyntaxNode) -> AnalysisResultView {
    let c = complexity_spec(n);
    let resources = resources_spec(c, a.carbon_intensity);
    let eco = eco_score_spec(resources.energy_millijoules as nat);
    let econ = econ_score_spec(c);
    let quality = quality_score_spec(c);
    AnalysisResultView {
        location: location_spec(n),
        resources,
        health: HealthIndex {
            eco_score: clamp_score(eco) as u64,
            econ_score: clamp_score(econ) as u64,
            quality_score: clamp_score(quality) as u64,
            overall: overall_spec(eco, econ, quality, a.weights) as u64,
        },
        recommendations: recommendations_spec(patterns_spec(n)),
    }
}

/// The ordered results of a pre-order walk of the subtree rooted at
/// `n`: the node's own result first if it is function-like, then the
/// children's results left to right.
pub open spec fn results_spec(a: Analyzer, n: SyntaxNode) -> Seq<AnalysisResultView>
    decreases n,
{
    let here = if a.profile.spec_is_function_kind(n.kind@) {
        seq![analysis_of(a, n)]
    } else {
        Seq::<AnalysisResultView>::empty()
    };
    here + results_spec_seq(a, n.children@)
}

/// The concatenated results of sibling subtrees, left to right.
pub open spec fn results_spec_seq(a: Analyzer, s: Seq<SyntaxNode>) -> Seq<AnalysisResultView>
    decreases s,
{
    if s.len() == 0 {
        Seq::<AnalysisResultView>::empty()
    } else {
        results_spec(a, s[0]) + results_spec_seq(a, s.drop_first())
    }
}

/// How many nodes of the subtree rooted at `n` are function-like
/// under profile `p`.
pub open spec fn fn_node_count(p: LanguageProfile, n: SyntaxNode) -> nat
    decreases n,
{
    (if p.spec_is_function_kind(n.kind@) {
        1nat
    } else {
        0nat
    }) + fn_node_count_seq(p, n.children@)
}

/// How many function-like nodes sibling subtrees hold together.
pub open spec fn fn_node_count_seq(p: LanguageProfile, s: Seq<SyntaxNode>) -> nat
    decreases s,
{
    if s.len() == 0 {
        0
    } else {
        fn_node_count(p, s[0]) + fn_node_count_seq(p, s.drop_first())
    }
}

/// One result per function-like node: the walk emits exactly as many
/// results as the tree holds function-like nodes.
pub proof fn lemma_result_count(a: Analyzer, n: SyntaxNode)
    ensures
        results_spec(a, n).len() == fn_node_count(a.profile, n),
    decreases n,
{
    lemma_result_count_seq(a, n.children@);
}

proof fn lemma_result_count_seq(a: Analyzer, s: Seq<SyntaxNode>)
    ensures
        results_spec_seq(a, s).len() == fn_node_count_seq(a.profile, s),
    decreases s,
{
    if s.len() > 0 {
        lemma_result_count(a, s[0]);
        lemma_result_count_seq(a, s.drop_first());
    }
}

proof fn lemma_results_spec_seq_push(a: Analyzer, s: Seq<SyntaxNode>, x: SyntaxNode)
    ensures
        results_spec_seq(a, s.push(x)) == results_spec_seq(a, s) + results_spec(a, x),
    decreases s,
{
    let t = s.push(x);
    assert(t.len() == s.len() + 1);
    if s.len() == 0 {
        assert(t[0] == x);
        assert(t.drop_first() =~= Seq::<SyntaxNode>::empty());
        assert(results_spec_seq(a, t) == results_spec(a, x) + results_spec_seq(
            a,
            t.drop_first(),
        ));
        assert(results_spec_seq(a, t) =~= results_spec_seq(a, s) + results_spec(a, x));
    } else {
        assert(t[0] == s[0]);
        assert(t.drop_first() =~= s.drop_first().push(x));
        lemma_results_spec_seq_push(a, s.drop_first(), x);
        assert(results_spec_seq(a, t) == results_spec(a, s[0]) + results_spec_seq(
            a,
            t.drop_first(),
        ));
        assert(results_spec_seq(a, s) == results_spec(a, s[0]) + results_spec_seq(
            a,
            s.drop_first(),
        ));
        assert(results_spec_seq(a, t) =~= results_spec_seq(a, s) + results_spec(a, x));
    }
}

proof fn lemma_results_spec_seq_take_step(a: Analyzer, s: Seq<SyntaxNode>, i: int)
    requires
        0 <= i < s.len(),
    ensures
        results_spec_seq(a, s.take(i + 1)) == results_spec_seq(a, s.take(i)) + results_spec(
            a,
            s[i],
        ),
{
    assert(s.take(i + 1) =~= s.take(i).push(s[i]));
    lemma_results_spec_seq_push(a, s.take(i), s[i]);
}

impl Analyzer {
    /// The configuration is valid when both injected coefficients are.
    pub open spec fn wf(self) -> bool {
        self.carbon_intensity.wf() && self.weights.wf()
    }

    /// An analyzer for the given language with the default carbon
    /// intensity and aggregation policy.
    pub fn new(profile: LanguageProfile) -> (r: Analyzer)
        ensures
            r.profile == profile,
            r.carbon_intensity.nanograms_per_joule == crate::metrics::DEFAULT_CARBON_INTENSITY,
            r.weights == (AggregationWeights { eco: 1u64, econ: 1u64, quality: 1u64 }),
            r.wf(),
    {
        Analyzer {
            profile,
            carbon_intensity: CarbonIntensity::default(),
            weights: AggregationWeights::default(),
        }
    }

    /// An analyzer with explicit carbon-intensity and aggregation
    /// configuration.
    pub fn with_config(
        profile: LanguageProfile,
        carbon_intensity: CarbonIntensity,
        weights: AggregationWeights,
    ) -> (r: Analyzer)
        requires
            carbon_intensity.wf(),
            weights.wf(),
        ensures
            r.profile == profile,
            r.carbon_intensity == carbon_intensity,
            r.weights == weights,
            r.wf(),
    {
        Analyzer { profile, carbon_intensity, weights }
    }

    /// Analyze one function-like node: location, complexity,
    /// resources, patterns, scores and recommendations.
    pub fn analyze_function(&self, source: &str, node: &SyntaxNode) -> (r: Option<
        AnalysisResult,
    >)
        requires
            self.wf(),
        ensures
            r matches Some(res) && res@ == analysis_of(*self, *node),
    {
        let location = match node_location(node) {
            Some(l) => l,
            None => {
                return None;
            },
        };
        let complexity = estimate_complexity(node);
        let resources = estimate_resources(complexity, self.carbon_intensity);
        let patterns = detect_patterns(source, node);
        let recommendations = generate_recommendations(&patterns);
        let eco_score = calculate_eco_score(&resources);
        let econ_score = calculate_econ_score(complexity);
        let quality_score = calculate_quality_score(complexity);
        let health = HealthIndex::compute(eco_score, econ_score, quality_score, self.weights);
        Some(AnalysisResult { location, resources, health, recommendations })
    }

    /// Walk the subtree rooted at `node` in pre-order, appending one
    /// result per function-like node.
    fn visit_node(&self, source: &str, node: &SyntaxNode, results: &mut Vec<AnalysisResult>)
        requires
            self.wf(),
        ensures
            results_view(final(results)@) == results_view(old(results)@) + results_spec(
                *self,
                *node,
            ),
        decreases *node,
    {
        let ghost prefix = results_view(results@);
        let ghost here = if self.profile.spec_is_function_kind(node.kind@) {
            seq![analysis_of(*self, *node)]
        } else {
            Seq::<AnalysisResultView>::empty()
        };
        if self.profile.is_function_node(node) {
            if let Some(result) = self.analyze_function(source, node) {
                proof {
                    assert(results_view(results@.push(result)) =~= results_view(results@).push(
                        result@,
                    ));
                }
                results.push(result);
                proof {
                    assert(results_view(results@) =~= prefix + here);
                }
            }
        } else {
            proof {
                assert(results_view(results@) =~= prefix + here);
            }
        }
        let mut i: usize = 0;
        proof {
            assert(node.children@.take(0) =~= Seq::<SyntaxNode>::empty());
        }
        while i < node.children.len()
            invariant
                self.wf(),
                0 <= i <= node.children.len(),
                results_view(results@) == prefix + here + results_spec_seq(
                    *self,
                    node.children@.take(i as int),
                ),
            decreases node.children.len() - i,
        {
            self.visit_node(source, &node.children[i], results);
            proof {
                lemma_results_spec_seq_take_step(*self, node.children@, i as int);
                assert(results_view(results@) =~= prefix + here + results_spec_seq(
                    *self,
                    node.children@.take(i as int + 1),
                ));
            }
            i = i + 1;
        }
        proof {
            assert(node.children@.take(node.children@.len() as int) =~= node.children@);
            assert(results_view(results@) =~= prefix + results_spec(*self, *node));
        }
    }

    /// Analyze every function-like node of a parsed tree, in pre-order
    /// traversal order.
    pub fn analyze_tree(&self, source: &str, tree: &SyntaxNode) -> (r: Vec<AnalysisResult>)
        requires
            self.wf(),
        ensures
            results_view(r@) == results_spec(*self, *tree),
            r@.len() == fn_node_count(self.profile, *tree),
    {
        let mut results: Vec<AnalysisResult> = Vec::new();
        proof {
            assert(results_view(results@) =~= Seq::<AnalysisResultView>::empty());
        }
        self.visit_node(source, tree, &mut results);
        proof {
            assert(results_view(results@) =~= results_spec(*self, *tree));
            lemma_result_count(*self, *tree);
        }
        results
    }

    /// Parse a source text under the analyzer's grammar and analyze
    /// the tree. `Ok` exactly when the parser builds a tree.
    pub fn analyze_source(&self, source: &str) -> (r: Result<Vec<AnalysisResult>, AnalysisError>)
        requires
            self.wf(),
        ensures
            match r {
                Ok(results) => analyze_source_spec(*self, source@) == Some(results_view(results@)),
                Err(e) => analyze_source_spec(*self, source@) is None && e == AnalysisError::Parse,
            },
    {
        match parse_source(self.profile.grammar, source) {
            Some(tree) => Ok(self.analyze_tree(source, &tree)),
            None => Err(AnalysisError::Parse),
        }
    }
}

/// What a whole analysis of a source text returns: `None` when the
/// parser fails, else the ordered result views. A pure function of
/// the configuration and the text.
pub open spec fn analyze_source_spec(a: Analyzer, source: Seq<char>) -> Option<
    Seq<AnalysisResultView>,
> {
    match parse_tree_spec(a.profile.grammar, source) {
        Some(tree) => Some(results_spec(a, tree)),
        None => None,
    }
}

/// Determinism: analyses of byte-identical source text under the same
/// configuration produce identical ordered result lists.
pub proof fn lemma_analysis_deterministic(a: Analyzer, s1: Seq<char>, s2: Seq<char>)
    requires
        s1 == s2,
    ensures
        analyze_source_spec(a, s1) == analyze_source_spec(a, s2),
{
}

/// Analyze source code directly under a caller-supplied language
/// profile, with the default configuration.
pub fn analyze_source(source: &str, language: LanguageProfile) -> (r: Result<
    Vec<AnalysisResult>,
    AnalysisError,
>)
    ensures
        ({
            let a = Analyzer {
                profile: language,
                carbon_intensity: CarbonIntensity {
                    nanograms_per_joule: crate::metrics::DEFAULT_CARBON_INTENSITY,
                },
                weights: AggregationWeights { eco: 1u64, econ: 1u64, quality: 1u64 },
            };
            match r {
                Ok(results) => analyze_source_spec(a, source@) == Some(results_view(results@)),
                Err(e) => analyze_source_spec(a, source@) is None && e == AnalysisError::Parse,
            }
        }),
{
    let analyzer = Analyzer::new(language);
    analyzer.analyze_source(source)
}

} // verus!
