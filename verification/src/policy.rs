//! The policy-evaluation boundary.
//!
//! Pass/fail rules live in an outside rule file and run under an
//! outside interpreter; this module owns both sides of that boundary:
//! it renders a [`ResourceProfile`] as the JSON text handed to the
//! interpreter, and it reads the interpreter's raw output back into a
//! verdict. Running the interpreter itself is a process call and
//! stays with the caller.

use vstd::prelude::*;
use vstd::slice::slice_to_vec;
use crate::metrics::ResourceProfile;
use crate::text::dec_digits;
use crate::text::u64_to_decimal;

verus! {

/// A policy engine backed by an interpreter binary at the given path.
pub struct PolicyEngine {
    pub eclexia_binary: String,
}

/// Why a policy evaluation failed.
#[derive(Debug)]
pub enum PolicyError {
    /// The interpreter exited unsuccessfully; its error output is
    /// carried along.
    EngineFailed(Vec<u8>),
    /// The interpreter succeeded but printed neither `true` nor
    /// `false`.
    InvalidOutput,
}

/// The JSON text that stands for a resource profile at the policy
/// boundary.
pub open spec fn policy_input_spec(r: ResourceProfile) -> Seq<char> {
    "{\"energy_millijoules\":"@ + dec_digits(r.energy_millijoules as nat)
        + ",\"duration_microseconds\":"@ + dec_digits(r.duration_microseconds as nat)
        + ",\"memory_kilobytes\":"@ + dec_digits(r.memory_kilobytes as nat)
        + ",\"carbon_nanograms\":"@ + dec_digits(r.carbon_nanograms as nat) + "}"@
}

/// Whether a byte is ASCII whitespace, as the output trim treats it.
pub open spec fn is_ws_byte(b: u8) -> bool {
    b == 32 || b == 9 || b == 10 || b == 13
}

/// `s` with leading whitespace bytes removed.
pub open spec fn trim_front(s: Seq<u8>) -> Seq<u8>
    decreases s.len(),
{
    if s.len() > 0 && is_ws_byte(s[0]) {
        trim_front(s.drop_first())
    } else {
        s
    }
}

/// `s` with trailing whitespace bytes removed.
pub open spec fn trim_back(s: Seq<u8>) -> Seq<u8>
    decreases s.len(),
{
    if s.len() > 0 && is_ws_byte(s.last()) {
        trim_back(s.drop_last())
    } else {
        s
    }
}

/// `s` with whitespace removed at both ends.
pub open spec fn trim_bytes(s: Seq<u8>) -> Seq<u8> {
    trim_back(trim_front(s))
}

/// The bytes of the JSON literal `true`.
pub open spec fn true_bytes() -> Seq<u8> {
    seq!['t' as u8, 'r' as u8, 'u' as u8, 'e' as u8]
}

/// The bytes of the JSON literal `false`.
pub open spec fn false_bytes() -> Seq<u8> {
    seq!['f' as u8, 'a' as u8, 'l' as u8, 's' as u8, 'e' as u8]
}

proof fn lemma_trim_front_is_skip(s: Seq<u8>, i: int)
    requires
        0 <= i <= s.len(),
        forall|j: int| 0 <= j < i ==> is_ws_byte(s[j]),
        i == s.len() || !is_ws_byte(s[i]),
    ensures
        trim_front(s) == s.skip(i),
    decreases i,
{
    if i == 0 {
        assert(s.skip(0) =~= s);
    } else {
        assert(is_ws_byte(s[0]));
        assert(s.len() > 0);
        let t = s.drop_first();
        assert(t =~= s.skip(1));
        assert(forall|j: int| 0 <= j < i - 1 ==> is_ws_byte(#[trigger] t[j]));
        assert(i - 1 == t.len() || !is_ws_byte(t[i - 1]));
        lemma_trim_front_is_skip(t, i - 1);
        assert(t.skip(i - 1) =~= s.skip(i));
    }
}

proof fn lemma_trim_back_is_take(s: Seq<u8>, h: int)
    requires
        0 <= h <= s.len(),
        forall|j: int| h <= j < s.len() ==> is_ws_byte(s[j]),
        h == 0 || !is_ws_byte(s[h - 1]),
    ensures
        trim_back(s) == s.take(h),
    decreases s.len() - h,
{
    if h == s.len() {
        if s.len() > 0 && is_ws_byte(s.last()) {
            let t = s.drop_last();
            assert(t =~= s.take(s.len() - 1));
            lemma_trim_back_is_take(t, h - 1);
            assert(t.take(h - 1) =~= s.take(h - 1));
            assert(h - 1 == s.len() - 1);
            assert(s.take(h) =~= s);
            assert(trim_back(s) == trim_back(t));
            assert(s.take(h - 1) =~= s.take(s.len() - 1));
            assert(false);
        } else {
            assert(s.take(h) =~= s);
        }
    } else {
        assert(is_ws_byte(s.last()));
        let t = s.drop_last();
        assert(t =~= s.take(s.len() - 1));
        assert(forall|j: int| h <= j < t.len() ==> is_ws_byte(#[trigger] t[j]));
        lemma_trim_back_is_take(t, h);
        assert(t.take(h) =~= s.take(h));
    }
}

impl PolicyEngine {
    /// A policy engine that will run the interpreter at this path.
    pub fn new(eclexia_binary: String) -> (r: PolicyEngine)
        ensures
            r.eclexia_binary@ == eclexia_binary@,
    {
        PolicyEngine { eclexia_binary }
    }

    /// Render a resource profile as the JSON text handed to the
    /// policy interpreter.
    pub fn policy_input_json(&self, resources: &ResourceProfile) -> (r: String)
        ensures
            r@ == policy_input_spec(*resources),
    {
        let mut s = "{\"energy_millijoules\":".to_owned();
        let energy = u64_to_decimal(resources.energy_millijoules);
        s.append(energy.as_str());
        s.append(",\"duration_microseconds\":");
        let duration = u64_to_decimal(resources.duration_microseconds);
        s.append(duration.as_str());
        s.append(",\"memory_kilobytes\":");
        let memory = u64_to_decimal(resources.memory_kilobytes);
        s.append(memory.as_str());
        s.append(",\"carbon_nanograms\":");
        let carbon = u64_to_decimal(resources.carbon_nanograms);
        s.append(carbon.as_str());
        s.append("}");
        proof {
            assert(s@ =~= policy_input_spec(*resources));
        }
        s
    }

    /// Turn the interpreter's exit state and raw output into a
    /// verdict. On an unsuccessful exit the error bytes come back in
    /// the result; on success the interpreter must print exactly
    /// `true` or `false`, whitespace aside.
    pub fn interpret_policy_output(&self, success: bool, stdout: &[u8], stderr: &[u8]) -> (r:
        Result<bool, PolicyError>)
        ensures
            match r {
                Ok(verdict) => success && (if verdict {
                    trim_bytes(stdout@) == true_bytes()
                } else {
                    trim_bytes(stdout@) == false_bytes()
                }),
                Err(PolicyError::EngineFailed(e)) => !success && e@ == stderr@,
                Err(PolicyError::InvalidOutput) => success && trim_bytes(stdout@) != true_bytes()
                    && trim_bytes(stdout@) != false_bytes(),
            },
    {
        if !success {
            return Err(PolicyError::EngineFailed(slice_to_vec(stderr)));
        }
        let n = stdout.len();
        let mut lo: usize = 0;
        while lo < n && byte_is_ws(stdout[lo])
            invariant
                0 <= lo <= n,
                n == stdout@.len(),
                forall|j: int| 0 <= j < lo ==> is_ws_byte(stdout@[j]),
            decreases n - lo,
        {
            lo = lo + 1;
        }
        let mut hi: usize = n;
        while hi > lo && byte_is_ws(stdout[hi - 1])
            invariant
                lo <= hi <= n,
                n == stdout@.len(),
                forall|j: int| hi <= j < n ==> is_ws_byte(stdout@[j]),
            decreases hi,
        {
            hi = hi - 1;
        }
        proof {
            lemma_trim_front_is_skip(stdout@, lo as int);
            if hi == lo {
                lemma_trim_back_is_take(stdout@.skip(lo as int), 0);
            } else {
                lemma_trim_back_is_take(stdout@.skip(lo as int), hi - lo);
            }
            assert(trim_bytes(stdout@) =~= stdout@.skip(lo as int).take(hi - lo));
        }
        let len = hi - lo;
        if len == 4 && stdout[lo] == 't' as u8 && stdout[lo + 1] == 'r' as u8 && stdout[lo + 2]
            == 'u' as u8 && stdout[lo + 3] == 'e' as u8 {
            proof {
                assert(trim_bytes(stdout@) =~= true_bytes());
            }
            Ok(true)
        } else if len == 5 && stdout[lo] == 'f' as u8 && stdout[lo + 1] == 'a' as u8 && stdout[lo
            + 2] == 'l' as u8 && stdout[lo + 3] == 's' as u8 && stdout[lo + 4] == 'e' as u8 {
            proof {
                assert(trim_bytes(stdout@) =~= false_bytes());
            }
            Ok(false)
        } else {
            proof {
                if trim_bytes(stdout@) == true_bytes() {
                    assert(len == 4 && stdout@[lo as int] == 't' as u8 && stdout@[lo + 1] == 'r'
                        as u8 && stdout@[lo + 2] == 'u' as u8 && stdout@[lo + 3] == 'e' as u8);
                }
                if trim_bytes(stdout@) == false_bytes() {
                    assert(len == 5 && stdout@[lo as int] == 'f' as u8 && stdout@[lo + 1] == 'a'
                        as u8 && stdout@[lo + 2] == 'l' as u8 && stdout@[lo + 3] == 's' as u8
                        && stdout@[lo + 4] == 'e' as u8);
                }
            }
            Err(PolicyError::InvalidOutput)
        }
    }

    /// The fixed resource estimate reported for one policy
    /// evaluation: 5 J, 10 ms, 100 KB and a milligram of CO2
    /// equivalent, pending real measurement.
    pub fn measure_policy_cost_estimate(&self) -> (r: ResourceProfile)
        ensures
            r == (ResourceProfile {
                energy_millijoules: 5000u64,
                duration_microseconds: 10000u64,
                memory_kilobytes: 100u64,
                carbon_nanograms: 1_000_000u64,
            }),
    {
        ResourceProfile {
            energy_millijoules: 5000,
            duration_microseconds: 10000,
            memory_kilobytes: 100,
            carbon_nanograms: 1_000_000,
        }
    }
}

/// Whether a byte is ASCII whitespace.
fn byte_is_ws(b: u8) -> (r: bool)
    ensures
        r == is_ws_byte(b),
{
    b == 32 || b == 9 || b == 10 || b == 13
}

/// An example policy for the interpreter, kept beside the engine that
/// feeds it.
pub const EXAMPLE_POLICY: &'static str = "
// Example resource policy.

// This policy receives a resource profile and decides whether the
// analyzed code deserves a warning.

def should_warn_high_energy(energy_joules: Float) -> Bool {
    energy_joules > 100.0
}

def should_warn_high_carbon(carbon_grams: Float) -> Bool {
    carbon_grams > 10.0
}

def evaluate_policy(energy: Float, carbon: Float) -> Bool
    @requires: energy < 1J, carbon < 0.001gCO2e
{
    should_warn_high_energy(energy) || should_warn_high_carbon(carbon)
}
";

} // verus!
