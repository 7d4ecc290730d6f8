//! Resource estimates derived from the complexity metric.
//!
//! All quantities are fixed-point integers so that every formula is
//! exact machine arithmetic: energy in millijoules, duration in
//! microseconds, memory in kilobytes, carbon in nanograms of CO2
//! equivalent. The published heuristic coefficients are 0.1 J, 0.5 ms
//! and 2 KB per complexity unit; carbon is derived from energy through
//! an injectable carbon-intensity coefficient.

use vstd::prelude::*;
use crate::complexity::COMPLEXITY_CAP;

verus! {

/// Estimated resource consumption of one function-like construct.
#[derive(Clone, Copy, PartialEq, Eq, Structural, Debug)]
pub struct ResourceProfile {
    pub energy_millijoules: u64,
    pub duration_microseconds: u64,
    pub memory_kilobytes: u64,
    pub carbon_nanograms: u64,
}

/// Upper bound on a carbon-intensity coefficient; keeps every carbon
/// product inside `u64`.
pub const MAX_CARBON_INTENSITY: u64 = 1_000_000_000;

/// Roughly a present-day world-average electricity grid, in nanograms
/// of CO2 equivalent per joule.
pub const DEFAULT_CARBON_INTENSITY: u64 = 131_944;

/// The injectable conversion factor from energy to estimated carbon,
/// in nanograms of CO2 equivalent per joule.
#[derive(Clone, Copy, PartialEq, Eq, Structural, Debug)]
pub struct CarbonIntensity {
    pub nanograms_per_joule: u64,
}

impl CarbonIntensity {
    /// The coefficient is valid when it stays under the cap.
    pub open spec fn wf(self) -> bool {
        self.nanograms_per_joule <= MAX_CARBON_INTENSITY
    }

    /// Accept a coefficient if it is under the cap.
    pub fn new(nanograms_per_joule: u64) -> (r: Option<CarbonIntensity>)
        ensures
            nanograms_per_joule <= MAX_CARBON_INTENSITY ==> (r matches Some(c)
                && c.nanograms_per_joule == nanograms_per_joule && c.wf()),
            nanograms_per_joule > MAX_CARBON_INTENSITY ==> r is None,
    {
        if nanograms_per_joule <= MAX_CARBON_INTENSITY {
            Some(CarbonIntensity { nanograms_per_joule })
        } else {
            None
        }
    }
}

impl Default for CarbonIntensity {
    /// The default coefficient: [`DEFAULT_CARBON_INTENSITY`].
    fn default() -> (r: Self)
        ensures
            r.nanograms_per_joule == DEFAULT_CARBON_INTENSITY,
            r.wf(),
    {
        CarbonIntensity { nanograms_per_joule: DEFAULT_CARBON_INTENSITY }
    }
}

/// Carbon estimate for a given energy: nanograms = millijoules times
/// the coefficient, scaled by the 1000 mJ in a joule (floor division).
pub open spec fn carbon_spec(energy_millijoules: nat, intensity: CarbonIntensity) -> nat {
    ((energy_millijoules * intensity.nanograms_per_joule) / 1000) as nat
}

/// The resource profile assigned to a given complexity.
pub open spec fn resources_spec(complexity: nat, intensity: CarbonIntensity) -> ResourceProfile {
    ResourceProfile {
        energy_millijoules: (complexity * 100) as u64,
        duration_microseconds: (complexity * 500) as u64,
        memory_kilobytes: (complexity * 2) as u64,
        carbon_nanograms: carbon_spec(complexity * 100, intensity) as u64,
    }
}

/// Map a complexity metric to its estimated resource profile.
pub fn estimate_resources(complexity: u64, intensity: CarbonIntensity) -> (r: ResourceProfile)
    requires
        complexity <= COMPLEXITY_CAP,
        intensity.wf(),
    ensures
        r == resources_spec(complexity as nat, intensity),
{
    let energy_millijoules = complexity * 100;
    proof {
        assert(energy_millijoules * intensity.nanograms_per_joule
            <= 100_000_000_000 * 1_000_000_000) by (nonlinear_arith)
            requires
                energy_millijoules <= 100_000_000_000,
                intensity.nanograms_per_joule <= 1_000_000_000,
        ;
    }
    let carbon_wide: u128 = (energy_millijoules as u128)
        * (intensity.nanograms_per_joule as u128) / 1000;
    ResourceProfile {
        energy_millijoules,
        duration_microseconds: complexity * 500,
        memory_kilobytes: complexity * 2,
        carbon_nanograms: carbon_wide as u64,
    }
}

} // verus!
