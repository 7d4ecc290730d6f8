//! Advisory recommendations.
//!
//! A fixed table maps each detected pattern tag to one advisory
//! string, in the order the tags were detected; an empty tag set earns
//! exactly one encouraging default message.

use vstd::prelude::*;
use crate::patterns::PatternTag;

verus! {

/// The views of a vector of strings.
pub open spec fn strings_view(v: Seq<String>) -> Seq<Seq<char>> {
    v.map_values(|s: String| s@)
}

/// The advisory text for one pattern tag.
pub open spec fn recommendation_text(tag: PatternTag) -> Seq<char> {
    match tag {
        PatternTag::NestedLoops => "Consider algorithm optimization to reduce nested iterations"@,
        PatternTag::BusyWait => "Replace busy-wait loop with async/await or blocking sleep"@,
        PatternTag::LargeAllocation => "Review memory allocation - consider streaming or chunking"@,
    }
}

/// The message emitted when no pattern was detected.
pub open spec fn default_recommendation() -> Seq<char> {
    "Code looks efficient - keep up the good work!"@
}

/// The recommendations owed to a sequence of detected tags: one
/// advisory per tag in detection order, or the single default message.
pub open spec fn recommendations_spec(tags: Seq<PatternTag>) -> Seq<Seq<char>> {
    if tags.len() == 0 {
        seq![default_recommendation()]
    } else {
        tags.map_values(|t: PatternTag| recommendation_text(t))
    }
}

/// Map each detected tag to its advisory string, in detection order;
/// with no tags, emit the single default message.
pub fn generate_recommendations(patterns: &Vec<PatternTag>) -> (r: Vec<String>)
    ensures
        strings_view(r@) == recommendations_spec(patterns@),
{
    let mut recs: Vec<String> = Vec::new();
    let mut i: usize = 0;
    while i < patterns.len()
        invariant
            0 <= i <= patterns.len(),
            recs@.len() == i,
            forall|j: int| 0 <= j < i ==> recs@[j]@ == recommendation_text(patterns@[j]),
        decreases patterns.len() - i,
    {
        let text = match patterns[i] {
            PatternTag::NestedLoops => "Consider algorithm optimization to reduce nested iterations",
            PatternTag::BusyWait => "Replace busy-wait loop with async/await or blocking sleep",
            PatternTag::LargeAllocation => "Review memory allocation - consider streaming or chunking",
        };
        recs.push(text.to_owned());
        i = i + 1;
    }
    if recs.len() == 0 {
        recs.push("Code looks efficient - keep up the good work!".to_owned());
        proof {
            assert(strings_view(recs@) =~= seq![default_recommendation()]);
        }
    } else {
        proof {
            assert(strings_view(recs@) =~= patterns@.map_values(
                |t: PatternTag| recommendation_text(t),
            ));
        }
    }
    recs
}

} // verus!
