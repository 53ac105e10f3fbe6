use sentinel_core::{RateLimitConfig, RateShaper, VdfProof};

fn sha256(data: &[u8]) -> [u8; 32] {
    <sha2::Sha256 as sha2::Digest>::digest(data).into()
}

#[test]
fn test_vdf_proof_deterministic() {
    let mut shaper = RateShaper::new(1); // 1ms target

    let proof1 = shaper.evaluate(b"test input");
    let proof2 = shaper.evaluate(b"test input");

    // Same input should produce same output
    assert_eq!(proof1.input, proof2.input);
    assert_eq!(proof1.output, proof2.output);
}

#[test]
fn test_vdf_proof_verification() {
    let mut shaper = RateShaper::new(1);
    let proof = shaper.evaluate(b"test input");

    assert!(proof.verify(), "Valid proof should verify");
}

#[test]
fn test_different_inputs_different_outputs() {
    let mut shaper = RateShaper::new(1);

    let proof1 = shaper.evaluate(b"input 1");
    let proof2 = shaper.evaluate(b"input 2");

    assert_ne!(proof1.output, proof2.output);
}

#[test]
fn test_rate_limit_check() {
    let shaper = RateShaper::new(100);

    // First check should pass (no previous evaluation)
    assert!(shaper.check_rate_limit().is_ok());
}

#[test]
fn calibration_is_a_thousand_steps_per_millisecond() {
    assert_eq!(RateShaper::calibrate(0), 0);
    assert_eq!(RateShaper::calibrate(1), 1000);
    assert_eq!(RateShaper::calibrate(250), 250_000);
    assert_eq!(RateShaper::calibrate(18_446_744_073_709_551), 18_446_744_073_709_551_000);
    let shaper = RateShaper::new(7);
    assert_eq!(shaper.iterations(), 7000);
    assert_eq!(shaper.target_delay(), 7);
}

#[test]
fn proof_is_the_iterated_hash() {
    let mut shaper = RateShaper::new(1);
    let proof = shaper.evaluate_at(b"test input", 40, 47);
    let first = sha256(b"test input");
    let mut current = first;
    for _ in 0..1000 {
        current = sha256(&current);
    }
    assert_eq!(proof.input, first);
    assert_eq!(proof.output, current);
    assert_eq!(proof.iterations, 1000);
    assert_eq!(proof.computation_time_ms, 7);
    assert!(proof.verify());
}

#[test]
fn zero_delay_gives_the_input_digest_back() {
    let mut shaper = RateShaper::new(0);
    let proof = shaper.evaluate(b"x");
    assert_eq!(proof.iterations, 0);
    assert_eq!(proof.input, sha256(b"x"));
    assert_eq!(proof.output, proof.input);
    assert!(proof.verify());
}

#[test]
fn verify_rejects_a_changed_output_or_step_count() {
    let mut shaper = RateShaper::new(1);
    let proof = shaper.evaluate(b"test input");
    for byte in 0..32 {
        let mut forged = proof;
        forged.output[byte] ^= 1;
        assert!(!forged.verify());
    }
    let fewer = VdfProof { iterations: 999, ..proof };
    assert!(!fewer.verify());
    let more = VdfProof { iterations: 1001, ..proof };
    assert!(!more.verify());
    let other_input = VdfProof { input: sha256(b"other"), ..proof };
    assert!(!other_input.verify());
    // The time taken is a report, not part of the evidence.
    let other_time = VdfProof { computation_time_ms: 999, ..proof };
    assert!(other_time.verify());
}

#[test]
fn computation_time_is_never_negative() {
    let mut shaper = RateShaper::new(1);
    assert_eq!(shaper.evaluate_at(b"x", 50, 40).computation_time_ms, 0);
    assert_eq!(shaper.evaluate_at(b"x", 50, 50).computation_time_ms, 0);
}

#[test]
fn rate_limit_counts_from_the_start_of_the_last_evaluation() {
    let mut shaper = RateShaper::new(100);
    assert_eq!(shaper.check_rate_limit_at(0), Ok(()));
    assert_eq!(shaper.check_rate_limit_at(5_000), Ok(()));
    shaper.evaluate_at(b"x", 1_000, 1_020);
    assert_eq!(shaper.check_rate_limit_at(1_000), Err(100));
    assert_eq!(shaper.check_rate_limit_at(1_001), Err(99));
    assert_eq!(shaper.check_rate_limit_at(1_099), Err(1));
    assert_eq!(shaper.check_rate_limit_at(1_100), Ok(()));
    assert_eq!(shaper.check_rate_limit_at(9_000), Ok(()));
    // A clock reading before the evaluation counts as no time passed.
    assert_eq!(shaper.check_rate_limit_at(900), Err(100));
}

#[test]
fn rate_limit_by_the_clock_after_an_evaluation() {
    let mut quick = RateShaper::new(0);
    quick.evaluate(b"x");
    assert_eq!(quick.check_rate_limit(), Ok(()));
    // An evaluation that the clock has not reached yet: the whole delay is left.
    let mut shaper = RateShaper::new(3);
    shaper.evaluate_at(b"x", u64::MAX, u64::MAX);
    assert_eq!(shaper.check_rate_limit(), Err(3));
}

#[test]
fn minimum_delay_remaining_is_the_rest_of_the_target() {
    let shaper = RateShaper::new(100);
    assert_eq!(shaper.minimum_delay_remaining(0), 100);
    assert_eq!(shaper.minimum_delay_remaining(99), 1);
    assert_eq!(shaper.minimum_delay_remaining(100), 0);
    assert_eq!(shaper.minimum_delay_remaining(u64::MAX), 0);
}

#[test]
fn default_rate_limits() {
    let config = RateLimitConfig::default();
    assert_eq!(config.low_risk_delay_ms, 100);
    assert_eq!(config.medium_risk_delay_ms, 1000);
    assert_eq!(config.high_risk_delay_ms, 5000);
    assert_eq!(config.irreversible_delay_ms, 30000);
}
