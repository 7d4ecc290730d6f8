//! Normalized quality scores.
//!
//! Scores are kept in decipoints: an integer 0 ..= 1000 standing for
//! 0.0 ..= 100.0 points. The published formulas are
//! `eco = clamp(100 - ln(energy_joules) * 10, 0, 100)`,
//! `econ = clamp(100 - complexity * 0.5, 0, 100)` and
//! `quality = clamp(100 - complexity * 0.3, 0, 100)`; the composite
//! overall value is a weighted mean picked by an injectable policy.
//!
//! The natural logarithm is computed in fixed point: `ln(m)` is
//! approximated by a piecewise-linear interpolation between powers of
//! two, `ln(m) ~ ln(2) * (k + (m - 2^k) / 2^k)` with
//! `k = floor(log2(m))`, which is exact at every power of two and
//! overshoots by less than 0.09 between them.

use vstd::prelude::*;
use vstd::arithmetic::power2::pow2;
use vstd::arithmetic::power2::lemma_pow2_pos;
use vstd::arithmetic::power2::lemma_pow2_unfold;
use vstd::arithmetic::power2::lemma_pow2_strictly_increases;
use vstd::arithmetic::power2::lemma2_to64;
use vstd::arithmetic::div_mod::lemma_div_is_ordered;
use crate::metrics::ResourceProfile;

verus! {

/// `floor(log2(m))`, with 0 for `m < 2`.
pub open spec fn floor_log2(m: nat) -> nat
    decreases m,
{
    if m < 2 {
        0
    } else {
        1 + floor_log2(m / 2)
    }
}

/// `floor_log2` is pinned down by the enclosing powers of two.
proof fn lemma_floor_log2_unique(m: nat, k: nat)
    requires
        pow2(k) <= m,
        m < pow2(k + 1),
    ensures
        floor_log2(m) == k,
    decreases k,
{
    lemma_pow2_pos(k);
    lemma_pow2_unfold(k + 1);
    if k == 0 {
        lemma2_to64();
        assert(m == 1);
    } else {
        lemma_pow2_unfold(k);
        assert(m >= 2);
        assert(pow2((k - 1) as nat) <= m / 2);
        assert(m / 2 < pow2(k));
        lemma_floor_log2_unique(m / 2, (k - 1) as nat);
    }
}

/// A power of two no larger than `u64::MAX` has exponent at most 63.
proof fn lemma_pow2_fits_u64(k: nat)
    requires
        pow2(k) <= u64::MAX,
    ensures
        k <= 63,
{
    if k > 64 {
        lemma_pow2_strictly_increases(64, k);
        lemma2_to64();
    } else if k == 64 {
        lemma2_to64();
    }
}

/// `100 * ln(m)` in fixed point for `m >= 1`: with `k = floor(log2(m))`
/// and a 1/64-granular interpolation term, `100 * ln(2) ~ 693147 / 10000`.
pub open spec fn ln_centinats(m: nat) -> nat
    recommends
        m >= 1,
{
    let k = floor_log2(m);
    let frac = (((m - pow2(k)) * 64) / pow2(k) as int) as nat;
    ((k * 64 + frac) * 693147) / 640000
}

/// `1000 + 100 * ln(1000)`: the eco score in decipoints is
/// `1000 - 100 * ln(energy_millijoules / 1000)`, folded into one
/// constant so the formula reads `ECO_BASELINE - 100 * ln(millijoules)`.
pub const ECO_BASELINE: u64 = 1691;

/// The eco score, in decipoints, of a given energy. Zero energy maps
/// to the full score (the limit of the clamped formula).
pub open spec fn eco_score_spec(energy_millijoules: nat) -> nat {
    if energy_millijoules == 0 {
        1000
    } else {
        let l = ln_centinats(energy_millijoules);
        if l >= ECO_BASELINE {
            0
        } else if ECO_BASELINE - l >= 1000 {
            1000
        } else {
            (ECO_BASELINE - l) as nat
        }
    }
}

/// The econ score, in decipoints: `clamp(1000 - 5 * complexity, 0, 1000)`.
pub open spec fn econ_score_spec(complexity: nat) -> nat {
    if complexity * 5 >= 1000 {
        0
    } else {
        (1000 - complexity * 5) as nat
    }
}

/// The quality score, in decipoints: `clamp(1000 - 3 * complexity, 0, 1000)`.
pub open spec fn quality_score_spec(complexity: nat) -> nat {
    if complexity * 3 >= 1000 {
        0
    } else {
        (1000 - complexity * 3) as nat
    }
}

/// Compute `floor(log2(m))` together with `2^floor(log2(m))`.
fn floor_log2_u64(m: u64) -> (r: (u64, u64))
    requires
        m >= 1,
    ensures
        r.0 == floor_log2(m as nat),
        r.1 == pow2(r.0 as nat),
        r.1 <= m < 2 * r.1,
        r.0 <= 63,
{
    let mut k: u64 = 0;
    let mut p: u64 = 1;
    proof {
        lemma2_to64();
    }
    while p <= m / 2
        invariant
            m >= 1,
            p == pow2(k as nat),
            p <= m,
            k <= 63,
        decreases m - p,
    {
        proof {
            lemma_pow2_pos(k as nat);
            lemma_pow2_unfold((k + 1) as nat);
            lemma_pow2_fits_u64((k + 1) as nat);
        }
        p = p * 2;
        k = k + 1;
    }
    proof {
        assert(m < 2 * p);
        lemma_pow2_unfold((k + 1) as nat);
        lemma_floor_log2_unique(m as nat, k as nat);
    }
    (k, p)
}

/// Compute `100 * ln(m)` in fixed point.
pub fn ln_centinats_u64(m: u64) -> (r: u64)
    requires
        m >= 1,
    ensures
        r == ln_centinats(m as nat),
        r <= 4436,
{
    let (k, p) = floor_log2_u64(m);
    let frac_wide: u128 = (((m - p) as u128) * 64) / (p as u128);
    proof {
        assert(((m as int - p as int) * 64) / (p as int) < 64) by (nonlinear_arith)
            requires
                p >= 1,
                m as int - p as int >= 0,
                (m as int) < 2 * (p as int),
        ;
        assert(frac_wide < 64);
    }
    let frac: u64 = frac_wide as u64;
    let num: u64 = (k * 64 + frac) * 693147;
    proof {
        assert(num <= 4095 * 693147);
        lemma_div_is_ordered(num as int, (4095 * 693147) as int, 640000 as int);
    }
    num / 640000
}

/// The eco score of a resource profile, in decipoints; lower energy
/// gives a higher score, logarithmically.
pub fn calculate_eco_score(resources: &ResourceProfile) -> (r: u64)
    ensures
        r == eco_score_spec(resources.energy_millijoules as nat),
        r <= 1000,
{
    let m = resources.energy_millijoules;
    if m == 0 {
        return 1000;
    }
    let l = ln_centinats_u64(m);
    if l >= ECO_BASELINE {
        0
    } else if ECO_BASELINE - l >= 1000 {
        1000
    } else {
        ECO_BASELINE - l
    }
}

/// The econ score of a complexity, in decipoints; lower complexity
/// means higher efficiency.
pub fn calculate_econ_score(complexity: u64) -> (r: u64)
    ensures
        r == econ_score_spec(complexity as nat),
        r <= 1000,
{
    if complexity >= 200 {
        0
    } else {
        1000 - complexity * 5
    }
}

/// The quality score of a complexity, in decipoints.
pub fn calculate_quality_score(complexity: u64) -> (r: u64)
    ensures
        r == quality_score_spec(complexity as nat),
        r <= 1000,
{
    if complexity >= 334 {
        0
    } else {
        1000 - complexity * 3
    }
}

/// Upper bound on one aggregation weight; keeps the weighted sum
/// inside `u64`.
pub const MAX_AGGREGATION_WEIGHT: u64 = 1_000_000;

/// The injectable policy that folds the three sub-scores into the
/// composite overall value: a weighted mean.
#[derive(Clone, Copy, PartialEq, Eq, Structural, Debug)]
pub struct AggregationWeights {
    pub eco: u64,
    pub econ: u64,
    pub quality: u64,
}

impl AggregationWeights {
    /// Weights are valid when at least one is positive and each stays
    /// under the cap.
    pub open spec fn wf(self) -> bool {
        &&& self.eco + self.econ + self.quality >= 1
        &&& self.eco <= MAX_AGGREGATION_WEIGHT
        &&& self.econ <= MAX_AGGREGATION_WEIGHT
        &&& self.quality <= MAX_AGGREGATION_WEIGHT
    }

    /// Accept a weighting if it is valid.
    pub fn new(eco: u64, econ: u64, quality: u64) -> (r: Option<AggregationWeights>)
        ensures
            (r matches Some(w)) <==> (eco + econ + quality >= 1
                && eco <= MAX_AGGREGATION_WEIGHT && econ <= MAX_AGGREGATION_WEIGHT
                && quality <= MAX_AGGREGATION_WEIGHT),
            r matches Some(w) ==> w == (AggregationWeights { eco, econ, quality }) && w.wf(),
    {
        if (eco > 0 || econ > 0 || quality > 0) && eco <= MAX_AGGREGATION_WEIGHT
            && econ <= MAX_AGGREGATION_WEIGHT && quality <= MAX_AGGREGATION_WEIGHT {
            Some(AggregationWeights { eco, econ, quality })
        } else {
            None
        }
    }
}

impl Default for AggregationWeights {
    /// The default policy: the plain mean of the three sub-scores.
    fn default() -> (r: Self)
        ensures
            r == (AggregationWeights { eco: 1u64, econ: 1u64, quality: 1u64 }),
            r.wf(),
    {
        AggregationWeights { eco: 1, econ: 1, quality: 1 }
    }
}

/// A score forced into 0 ..= 1000 decipoints.
pub open spec fn clamp_score(s: nat) -> nat {
    if s <= 1000 { s } else { 1000 }
}

/// The composite overall value: the weighted mean of the three
/// sub-scores, each first clamped into range.
pub open spec fn overall_spec(eco: nat, econ: nat, quality: nat, w: AggregationWeights) -> nat
    recommends
        w.wf(),
{
    ((clamp_score(eco) * w.eco + clamp_score(econ) * w.econ + clamp_score(quality) * w.quality)
        / (w.eco + w.econ + w.quality) as int) as nat
}

/// The three sub-scores together with the composite overall value, in
/// decipoints.
#[derive(Clone, Copy, PartialEq, Eq, Structural, Debug)]
pub struct HealthIndex {
    pub eco_score: u64,
    pub econ_score: u64,
    pub quality_score: u64,
    pub overall: u64,
}

impl HealthIndex {
    /// Assemble the index from the three sub-scores under a weighting
    /// policy. Whatever the inputs, every field ends in range.
    pub fn compute(eco: u64, econ: u64, quality: u64, w: AggregationWeights) -> (r: HealthIndex)
        requires
            w.wf(),
        ensures
            r.eco_score == clamp_score(eco as nat),
            r.econ_score == clamp_score(econ as nat),
            r.quality_score == clamp_score(quality as nat),
            r.overall == overall_spec(eco as nat, econ as nat, quality as nat, w),
            r.eco_score <= 1000,
            r.econ_score <= 1000,
            r.quality_score <= 1000,
            r.overall <= 1000,
    {
        let e = if eco <= 1000 { eco } else { 1000 };
        let c = if econ <= 1000 { econ } else { 1000 };
        let q = if quality <= 1000 { quality } else { 1000 };
        let sum = w.eco + w.econ + w.quality;
        proof {
            assert(e * w.eco <= 1000 * w.eco) by (nonlinear_arith)
                requires
                    e <= 1000,
            ;
            assert(c * w.econ <= 1000 * w.econ) by (nonlinear_arith)
                requires
                    c <= 1000,
            ;
            assert(q * w.quality <= 1000 * w.quality) by (nonlinear_arith)
                requires
                    q <= 1000,
            ;
            lemma_div_is_ordered(
                (e * w.eco + c * w.econ + q * w.quality) as int,
                (1000 * (w.eco + w.econ + w.quality)) as int,
                sum as int,
            );
            vstd::arithmetic::div_mod::lemma_div_multiples_vanish(1000, sum as int);
        }
        let overall = (e * w.eco + c * w.econ + q * w.quality) / sum;
        HealthIndex { eco_score: e, econ_score: c, quality_score: q, overall }
    }
}

/// Any energy yields an eco score inside 0 ..= 1000 decipoints, any
/// complexity an econ and a quality score inside the same range, and
/// any sub-scores an overall value inside it as well.
pub proof fn lemma_scores_in_range(
    energy_millijoules: nat,
    complexity: nat,
    eco: nat,
    econ: nat,
    quality: nat,
    w: AggregationWeights,
)
    requires
        w.wf(),
    ensures
        eco_score_spec(energy_millijoules) <= 1000,
        econ_score_spec(complexity) <= 1000,
        quality_score_spec(complexity) <= 1000,
        overall_spec(eco, econ, quality, w) <= 1000,
{
    let e = clamp_score(eco);
    let c = clamp_score(econ);
    let q = clamp_score(quality);
    assert(e * w.eco <= 1000 * w.eco) by (nonlinear_arith)
        requires
            e <= 1000,
    ;
    assert(c * w.econ <= 1000 * w.econ) by (nonlinear_arith)
        requires
            c <= 1000,
    ;
    assert(q * w.quality <= 1000 * w.quality) by (nonlinear_arith)
        requires
            q <= 1000,
    ;
    lemma_div_is_ordered(
        (e * w.eco + c * w.econ + q * w.quality) as int,
        (1000 * (w.eco + w.econ + w.quality)) as int,
        (w.eco + w.econ + w.quality) as int,
    );
    vstd::arithmetic::div_mod::lemma_div_multiples_vanish(
        1000,
        (w.eco + w.econ + w.quality) as int,
    );
}

} // verus!
