//! Tests of the resource and score formulas on exact values.

use sustainabot_analysis::metrics::CarbonIntensity;
use sustainabot_analysis::metrics::ResourceProfile;
use sustainabot_analysis::metrics::estimate_resources;
use sustainabot_analysis::score::AggregationWeights;
use sustainabot_analysis::score::HealthIndex;
use sustainabot_analysis::score::calculate_eco_score;
use sustainabot_analysis::score::calculate_econ_score;
use sustainabot_analysis::score::calculate_quality_score;
use sustainabot_analysis::score::ln_centinats_u64;

fn profile(energy_millijoules: u64) -> ResourceProfile {
    ResourceProfile {
        energy_millijoules,
        duration_microseconds: 0,
        memory_kilobytes: 0,
        carbon_nanograms: 0,
    }
}

#[test]
fn resources_follow_the_coefficients() {
    let intensity = CarbonIntensity::new(131_944).unwrap();
    let r = estimate_resources(10, intensity);
    assert_eq!(r.energy_millijoules, 1000);
    assert_eq!(r.duration_microseconds, 5000);
    assert_eq!(r.memory_kilobytes, 20);
    assert_eq!(r.carbon_nanograms, 131_944);
}

#[test]
fn carbon_scales_with_intensity() {
    let low = CarbonIntensity::new(1000).unwrap();
    let r = estimate_resources(7, low);
    assert_eq!(r.energy_millijoules, 700);
    assert_eq!(r.carbon_nanograms, 700);
}

#[test]
fn carbon_intensity_over_cap_is_rejected() {
    assert!(CarbonIntensity::new(1_000_000_001).is_none());
    assert!(CarbonIntensity::new(1_000_000_000).is_some());
}

#[test]
fn fixed_point_log_is_exact_at_powers_of_two() {
    // ln(1024) * 100 ~ 693.1: ten doublings of ln(2) * 100.
    assert_eq!(ln_centinats_u64(1024), (10 * 64 * 693147) / 640000);
    assert_eq!(ln_centinats_u64(1), 0);
}

#[test]
fn eco_score_values() {
    // 0.1 J scores full marks; larger energies fall logarithmically.
    assert_eq!(calculate_eco_score(&profile(100)), 1000);
    assert_eq!(calculate_eco_score(&profile(2000)), 932);
    assert_eq!(calculate_eco_score(&profile(1_000_000)), 312);
    assert_eq!(calculate_eco_score(&profile(0)), 1000);
}

#[test]
fn econ_and_quality_scores() {
    assert_eq!(calculate_econ_score(10), 950);
    assert_eq!(calculate_quality_score(10), 970);
    assert_eq!(calculate_econ_score(300), 0);
    assert_eq!(calculate_quality_score(400), 0);
}

#[test]
fn overall_is_the_weighted_mean() {
    let even = AggregationWeights::new(1, 1, 1).unwrap();
    let h = HealthIndex::compute(1000, 965, 979, even);
    assert_eq!(h.overall, 981);
    let eco_only = AggregationWeights::new(1, 0, 0).unwrap();
    let h = HealthIndex::compute(700, 0, 0, eco_only);
    assert_eq!(h.overall, 700);
}

#[test]
fn compute_clamps_out_of_range_scores() {
    let even = AggregationWeights::new(1, 1, 1).unwrap();
    let h = HealthIndex::compute(5000, 1000, 1000, even);
    assert_eq!(h.eco_score, 1000);
    assert_eq!(h.overall, 1000);
}

#[test]
fn all_zero_weights_are_rejected() {
    assert!(AggregationWeights::new(0, 0, 0).is_none());
    assert!(AggregationWeights::new(1_000_001, 1, 1).is_none());
}
