use sentinel_core::{CapabilityKey, ContextEvaluator, ContextSignature};

fn hex(text: &str) -> Vec<u8> {
    (0..text.len() / 2).map(|i| u8::from_str_radix(&text[2 * i..2 * i + 2], 16).unwrap()).collect()
}

fn sha256(data: &[u8]) -> [u8; 32] {
    <sha2::Sha256 as sha2::Digest>::digest(data).into()
}

fn sample() -> ContextSignature {
    ContextSignature::new([1u8; 32], [2u8; 32], 1000, 2000, [3u8; 32])
}

#[test]
fn test_context_signature_hash() {
    let ctx = ContextSignature::new([1u8; 32], [2u8; 32], 1000, 2000, [3u8; 32]);

    let hash1 = ctx.compute_hash();
    let hash2 = ctx.compute_hash();
    assert_eq!(hash1, hash2, "Hash should be deterministic");
}

#[test]
fn test_capability_derivation() {
    let master_key = [0u8; 32];
    let ctx = ContextSignature::new([1u8; 32], [2u8; 32], 1000, 2000, [3u8; 32]);

    let key1 = CapabilityKey::derive(&master_key, &ctx, b"test").unwrap();
    let key2 = CapabilityKey::derive(&master_key, &ctx, b"test").unwrap();

    assert_eq!(key1.as_bytes(), key2.as_bytes(), "Same inputs should derive same key");
}

#[test]
fn test_context_change_invalidates_capability() {
    let master_key = [0u8; 32];
    let ctx1 = ContextSignature::new([1u8; 32], [2u8; 32], 1000, 2000, [3u8; 32]);
    let ctx2 = ContextSignature::new(
        [1u8; 32],
        [9u8; 32], // Different software state
        1000,
        2000,
        [3u8; 32],
    );

    let key1 = CapabilityKey::derive(&master_key, &ctx1, b"test").unwrap();

    // Key derived from different context should not match
    assert!(!key1.verify_context(&master_key, &ctx2, b"test"));
}

#[test]
fn test_temporal_validity() {
    let ctx = ContextSignature::new([1u8; 32], [2u8; 32], 1000, 2000, [3u8; 32]);

    assert!(!ctx.is_temporally_valid(500), "Before valid_from");
    assert!(ctx.is_temporally_valid(1500), "Within window");
    assert!(!ctx.is_temporally_valid(2500), "After valid_until");
}

#[test]
fn temporal_validity_includes_both_ends() {
    let ctx = sample();
    assert!(!ctx.is_temporally_valid(999));
    assert!(ctx.is_temporally_valid(1000));
    assert!(ctx.is_temporally_valid(2000));
    assert!(!ctx.is_temporally_valid(2001));
    let instant = ContextSignature::new([0u8; 32], [0u8; 32], 7, 7, [0u8; 32]);
    assert!(instant.is_temporally_valid(7));
    assert!(!instant.is_temporally_valid(6));
    assert!(!instant.is_temporally_valid(8));
}

#[test]
fn context_hash_is_sha256_of_the_fields_in_order() {
    let ctx = sample();
    let mut preimage = Vec::new();
    preimage.extend_from_slice(&[1u8; 32]);
    preimage.extend_from_slice(&[2u8; 32]);
    preimage.extend_from_slice(&[0xe8, 0x03, 0, 0, 0, 0, 0, 0]);
    preimage.extend_from_slice(&[0xd0, 0x07, 0, 0, 0, 0, 0, 0]);
    preimage.extend_from_slice(&[3u8; 32]);
    assert_eq!(preimage.len(), 112);
    assert_eq!(ctx.compute_hash(), sha256(&preimage));
}

#[test]
fn context_hash_changes_with_every_field() {
    let base = sample().compute_hash();
    let changed = [
        ContextSignature::new([9u8; 32], [2u8; 32], 1000, 2000, [3u8; 32]),
        ContextSignature::new([1u8; 32], [9u8; 32], 1000, 2000, [3u8; 32]),
        ContextSignature::new([1u8; 32], [2u8; 32], 1001, 2000, [3u8; 32]),
        ContextSignature::new([1u8; 32], [2u8; 32], 1000, 2001, [3u8; 32]),
        ContextSignature::new([1u8; 32], [2u8; 32], 1000, 2000, [9u8; 32]),
    ];
    for ctx in changed.iter() {
        assert_ne!(ctx.compute_hash(), base);
    }
}

#[test]
fn measure_parameters_is_sha256() {
    let evaluator = ContextEvaluator::new([7u8; 32]);
    assert_eq!(
        evaluator.measure_parameters(b"abc").to_vec(),
        hex("ba7816bf8f01cfea414140de5dae2223b00361a396177a9cb410ff61f20015ad")
    );
    assert_eq!(
        evaluator.measure_parameters(b"").to_vec(),
        hex("e3b0c44298fc1c149afbf4c8996fb92427ae41e4649b934ca495991b7852b855")
    );
}

#[test]
fn reference_measurements_are_digests_of_fixed_strings() {
    let evaluator = ContextEvaluator::new([7u8; 32]);
    assert_eq!(evaluator.measure_hardware(), sha256(b"hardware_attestation_placeholder"));
    assert_eq!(evaluator.measure_software(), sha256(b"software_state_placeholder"));
}

#[test]
fn derive_is_hkdf_with_the_context_hash_as_salt() {
    let master_key = [5u8; 32];
    let ctx = sample();
    let key = CapabilityKey::derive(&master_key, &ctx, b"info bytes").unwrap();

    let salt = ctx.compute_hash();
    let mut expected = [0u8; 32];
    hkdf::Hkdf::<sha2::Sha256>::new(Some(&salt), &master_key)
        .expand(b"info bytes", &mut expected)
        .unwrap();
    assert_eq!(key.as_bytes(), &expected);
    assert_ne!(key.as_bytes(), &salt);
    assert_ne!(key.as_bytes(), &master_key);
}

#[test]
fn derive_depends_on_master_key_and_info() {
    let ctx = sample();
    let key = CapabilityKey::derive(&[0u8; 32], &ctx, b"test").unwrap();
    let other_master = CapabilityKey::derive(&[1u8; 32], &ctx, b"test").unwrap();
    let other_info = CapabilityKey::derive(&[0u8; 32], &ctx, b"tesu").unwrap();
    let no_info = CapabilityKey::derive(&[0u8; 32], &ctx, b"").unwrap();
    assert_ne!(key.as_bytes(), other_master.as_bytes());
    assert_ne!(key.as_bytes(), other_info.as_bytes());
    assert_ne!(key.as_bytes(), no_info.as_bytes());
}

#[test]
fn verify_context_accepts_the_issuing_context_only() {
    let master_key = [0u8; 32];
    let ctx = sample();
    let key = CapabilityKey::derive(&master_key, &ctx, b"test").unwrap();
    assert!(key.verify_context(&master_key, &ctx, b"test"));
    assert!(!key.verify_context(&[1u8; 32], &ctx, b"test"));
    assert!(!key.verify_context(&master_key, &ctx, b"other"));
    let changed = [
        ContextSignature::new([9u8; 32], [2u8; 32], 1000, 2000, [3u8; 32]),
        ContextSignature::new([1u8; 32], [2u8; 32], 1001, 2000, [3u8; 32]),
        ContextSignature::new([1u8; 32], [2u8; 32], 1000, 2001, [3u8; 32]),
        ContextSignature::new([1u8; 32], [2u8; 32], 1000, 2000, [9u8; 32]),
    ];
    for other in changed.iter() {
        assert!(!key.verify_context(&master_key, other, b"test"));
    }
}

#[test]
fn capture_context_assembles_the_measurements() {
    let evaluator = ContextEvaluator::new([7u8; 32]);
    let ctx = evaluator.capture_context(10, 20, b"params");
    assert_eq!(ctx.hardware_attestation, evaluator.measure_hardware());
    assert_eq!(ctx.software_state, evaluator.measure_software());
    assert_eq!(ctx.valid_from, 10);
    assert_eq!(ctx.valid_until, 20);
    assert_eq!(ctx.parameters, sha256(b"params"));

    let measured = evaluator.capture_measured([4u8; 32], [5u8; 32], 10, 20, b"params");
    assert_eq!(measured.hardware_attestation, [4u8; 32]);
    assert_eq!(measured.software_state, [5u8; 32]);
    assert_eq!(measured.parameters, sha256(b"params"));
}

#[test]
fn issue_capability_derives_from_the_captured_context() {
    let evaluator = ContextEvaluator::new([7u8; 32]);
    let (ctx, key) = evaluator.issue_capability(10, 20, b"params", b"info").unwrap();
    assert_eq!(ctx, evaluator.capture_context(10, 20, b"params"));
    let again = CapabilityKey::derive(&[7u8; 32], &ctx, b"info").unwrap();
    assert_eq!(key.as_bytes(), again.as_bytes());
}

#[test]
fn verify_capability_is_false_outside_the_window() {
    let evaluator = ContextEvaluator::new([7u8; 32]);
    let (ctx, key) = evaluator.issue_capability(10, 20, b"params", b"info").unwrap();
    assert!(!evaluator.verify_capability(&ctx, &key, b"info", 9).unwrap());
    assert!(!evaluator.verify_capability(&ctx, &key, b"info", 21).unwrap());
}

#[test]
fn an_issued_capability_verifies_within_its_window() {
    let evaluator = ContextEvaluator::new([7u8; 32]);
    let (ctx, key) = evaluator.issue_capability(10, 20, b"params", b"info").unwrap();
    assert_eq!(evaluator.verify_capability(&ctx, &key, b"info", 10).unwrap(), true);
    assert_eq!(evaluator.verify_capability(&ctx, &key, b"info", 15).unwrap(), true);
    assert_eq!(evaluator.verify_capability(&ctx, &key, b"info", 20).unwrap(), true);
    assert_eq!(evaluator.verify_capability(&ctx, &key, b"info", 9).unwrap(), false);
    assert_eq!(evaluator.verify_capability(&ctx, &key, b"info", 21).unwrap(), false);
    assert_eq!(evaluator.verify_capability(&ctx, &key, b"other", 15).unwrap(), false);

    // Another master key, another key.
    let stranger = ContextEvaluator::new([8u8; 32]);
    assert_eq!(stranger.verify_capability(&ctx, &key, b"info", 15).unwrap(), false);
}

#[test]
fn verification_compares_hardware_and_software() {
    let evaluator = ContextEvaluator::new([7u8; 32]);
    let (ctx, key) = evaluator.issue_capability(10, 20, b"params", b"info").unwrap();
    assert!(evaluator.verify_capability_measured(
        &ctx,
        &key,
        b"info",
        15,
        evaluator.measure_hardware(),
        evaluator.measure_software()
    ));
    // Drift in the measured hardware or software shows.
    assert!(!evaluator.verify_capability_measured(
        &ctx,
        &key,
        b"info",
        15,
        [0u8; 32],
        evaluator.measure_software()
    ));
    assert!(!evaluator.verify_capability_measured(
        &ctx,
        &key,
        b"info",
        15,
        evaluator.measure_hardware(),
        [0u8; 32]
    ));

    // A context issued on other hardware verifies where that hardware is measured.
    let elsewhere = evaluator.capture_measured([4u8; 32], [5u8; 32], 10, 20, b"params");
    let key = CapabilityKey::derive(&[7u8; 32], &elsewhere, b"info").unwrap();
    assert!(evaluator.verify_capability_measured(&elsewhere, &key, b"info", 15, [4u8; 32], [5u8; 32]));
    assert!(!evaluator.verify_capability_measured(&elsewhere, &key, b"info", 15, [5u8; 32], [4u8; 32]));
    assert!(!evaluator.verify_capability(&elsewhere, &key, b"info", 15).unwrap());

    // The window and the parameters are those of the expected context: a key
    // for other parameters or another window is refused.
    let other_params = evaluator.capture_context(10, 20, b"other params");
    let other_window = evaluator.capture_context(10, 21, b"params");
    for other in [other_params, other_window] {
        let key = CapabilityKey::derive(&[7u8; 32], &other, b"info").unwrap();
        assert!(!evaluator.verify_capability(&ctx, &key, b"info", 15).unwrap());
        assert!(evaluator.verify_capability(&other, &key, b"info", 15).unwrap());
    }
}
