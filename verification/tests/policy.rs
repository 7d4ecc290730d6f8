//! Tests of the policy boundary: input rendering and output reading.

use sustainabot_analysis::metrics::ResourceProfile;
use sustainabot_analysis::policy::EXAMPLE_POLICY;
use sustainabot_analysis::policy::PolicyEngine;
use sustainabot_analysis::policy::PolicyError;

fn engine() -> PolicyEngine {
    PolicyEngine::new("eclexia".to_string())
}

#[test]
fn test_example_policy_syntax() {
    assert!(EXAMPLE_POLICY.contains("def evaluate_policy"));
    assert!(EXAMPLE_POLICY.contains("@requires"));
}

#[test]
fn policy_input_is_exact_json() {
    let resources = ResourceProfile {
        energy_millijoules: 5000,
        duration_microseconds: 10000,
        memory_kilobytes: 100,
        carbon_nanograms: 1_000_000,
    };
    let json = engine().policy_input_json(&resources);
    assert_eq!(
        json,
        "{\"energy_millijoules\":5000,\"duration_microseconds\":10000,\
         \"memory_kilobytes\":100,\"carbon_nanograms\":1000000}"
    );
    // The rendering is real JSON.
    let parsed: serde_json::Value = serde_json::from_str(&json).unwrap();
    assert_eq!(parsed["energy_millijoules"], 5000);
    assert_eq!(parsed["carbon_nanograms"], 1_000_000);
}

#[test]
fn policy_input_renders_zero() {
    let resources = ResourceProfile {
        energy_millijoules: 0,
        duration_microseconds: 0,
        memory_kilobytes: 0,
        carbon_nanograms: 0,
    };
    let json = engine().policy_input_json(&resources);
    assert_eq!(
        json,
        "{\"energy_millijoules\":0,\"duration_microseconds\":0,\
         \"memory_kilobytes\":0,\"carbon_nanograms\":0}"
    );
}

#[test]
fn output_true_and_false_are_verdicts() {
    let e = engine();
    assert_eq!(e.interpret_policy_output(true, b" true\n", b"").unwrap(), true);
    assert_eq!(e.interpret_policy_output(true, b"false", b"").unwrap(), false);
    assert_eq!(e.interpret_policy_output(true, b"\t\r\nfalse \n", b"").unwrap(), false);
}

#[test]
fn garbled_output_is_invalid() {
    let e = engine();
    match e.interpret_policy_output(true, b"maybe", b"") {
        Err(PolicyError::InvalidOutput) => {}
        _ => panic!("expected invalid output"),
    }
    match e.interpret_policy_output(true, b"", b"") {
        Err(PolicyError::InvalidOutput) => {}
        _ => panic!("expected invalid output"),
    }
    match e.interpret_policy_output(true, b"truex", b"") {
        Err(PolicyError::InvalidOutput) => {}
        _ => panic!("expected invalid output"),
    }
}

#[test]
fn failed_engine_carries_its_error_output() {
    let e = engine();
    match e.interpret_policy_output(false, b"true", b"policy blew up") {
        Err(PolicyError::EngineFailed(stderr)) => assert_eq!(stderr, b"policy blew up".to_vec()),
        _ => panic!("expected engine failure"),
    }
}

#[test]
fn policy_cost_estimate_is_the_fixed_profile() {
    let cost = engine().measure_policy_cost_estimate();
    assert_eq!(cost.energy_millijoules, 5000);
    assert_eq!(cost.duration_microseconds, 10000);
    assert_eq!(cost.memory_kilobytes, 100);
    assert_eq!(cost.carbon_nanograms, 1_000_000);
}
