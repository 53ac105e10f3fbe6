use sentinel_core::{GovernanceLevel, LogEntryType, Sentinel, SentinelError, Timestamp};

/// The Shannon entropy of a distribution, in millionths of a bit.
fn entropy_microbits(counts: &[u64]) -> u64 {
    let total: f64 = counts.iter().map(|c| *c as f64).sum();
    let mut entropy = 0.0;
    for count in counts {
        let p = (*count as f64) / total;
        if p > 0.0 {
            entropy -= p * p.log2();
        }
    }
    (entropy * 1_000_000.0).round() as u64
}

fn entropy_of(sentinel: &Sentinel) -> u64 {
    entropy_microbits(&sentinel.trajectory_monitor.action_type_counts())
}

fn at(secs: i64) -> Timestamp {
    Timestamp::new(secs, 0)
}

#[test]
fn test_sentinel_creation() {
    let key = [0u8; 32];
    let sentinel = Sentinel::new(key);
    assert_eq!(sentinel.current_level(), GovernanceLevel::Observation);
}

#[test]
fn test_gamma_escalation() {
    let key = [0u8; 32];
    let mut sentinel = Sentinel::new(key);

    // Simulate high-velocity, irreversible actions
    for i in 0..100 {
        sentinel.record_execution(&format!("delete_file_{}", i), false);
    }

    let gamma = sentinel.current_gamma(entropy_of(&sentinel));
    // Irreversibility component should be elevated (100% irreversible actions)
    // Even if velocity is low due to test speed, reversibility should dominate
    assert!(gamma > 200_000, "Gamma should escalate with irreversible actions (got {})", gamma);
}

#[test]
fn a_new_sentinel_is_empty_and_observing() {
    let sentinel = Sentinel::new([3u8; 32]);
    assert!(sentinel.flight_recorder.is_empty());
    assert!(sentinel.flight_recorder.verify_chain());
    assert_eq!(sentinel.trajectory_monitor.action_count(), 0);
    assert_eq!(sentinel.rate_shaper.target_delay(), 1000);
    assert_eq!(sentinel.rate_shaper.iterations(), 1_000_000);
    assert_eq!(sentinel.intervention_controller.current_level(), GovernanceLevel::Observation);
    assert_eq!(
        sentinel.context_evaluator.measure_parameters(b"p"),
        Sentinel::new([4u8; 32]).context_evaluator.measure_parameters(b"p")
    );
}

#[test]
fn evaluate_action_logs_attempt_score_and_decision_in_order() {
    let mut sentinel = Sentinel::new([0u8; 32]);
    let now = sentinel.trajectory_monitor.compute_gamma(0).computed_at;
    for i in 0..100 {
        sentinel.record_execution_at(&format!("delete_file_{}", i), false, now);
    }
    assert!(sentinel.flight_recorder.is_empty());
    let microbits = entropy_of(&sentinel);
    let expected = sentinel.current_gamma_at(now, microbits);
    // 0.15 * 1 + 0.2 * (100 / 600) + 0.2 * 0 + 0.25 * 1 + 0.2 * 0
    assert_eq!(expected, 150_000 + 33_333 + 250_000);

    let decision = sentinel.evaluate_action_at("drop_table", microbits, now, 7).unwrap();
    assert_eq!(decision.gamma, expected);
    assert_eq!(decision.level, GovernanceLevel::Friction);
    assert!(decision.escalated);
    assert_eq!(decision.delay_ms, Some(500));
    assert_eq!(sentinel.current_level(), GovernanceLevel::Friction);
    // The monitor is not touched by an evaluation.
    assert_eq!(sentinel.trajectory_monitor.action_count(), 100);

    let entries = sentinel.flight_recorder.entries();
    assert_eq!(entries.len(), 3);
    assert!(matches!(&entries[0].entry_type, LogEntryType::ActionAttempt { action } if action == "drop_table"));
    assert!(matches!(&entries[1].entry_type, LogEntryType::GammaUpdate { gamma } if *gamma == expected));
    assert!(matches!(&entries[2].entry_type, LogEntryType::Intervention { decision: d }
        if d.level == GovernanceLevel::Friction && d.gamma == expected && d.escalated
            && d.reason == decision.reason));
    for (i, entry) in entries.iter().enumerate() {
        assert_eq!(entry.sequence, i as u64);
        assert_eq!(entry.timestamp, now);
    }
    assert!(sentinel.flight_recorder.verify_chain());

    let again = sentinel.evaluate_action_at("drop_table", microbits, now, 8).unwrap();
    assert_eq!(again.level, GovernanceLevel::Friction);
    assert!(!again.escalated);
    assert_eq!(sentinel.flight_recorder.len(), 6);
    assert!(sentinel.flight_recorder.verify_chain());
}

#[test]
fn evaluate_action_by_the_clock() {
    let mut sentinel = Sentinel::new([0u8; 32]);
    let decision = sentinel.evaluate_action("read_file", 0).unwrap();
    assert_eq!(decision.level, GovernanceLevel::Observation);
    assert!(!decision.escalated);
    assert!(!decision.blocked);
    assert_eq!(decision.delay_ms, None);
    assert_eq!(sentinel.flight_recorder.len(), 3);
    let entries = sentinel.flight_recorder.entries();
    assert_eq!(entries[0].timestamp, entries[1].timestamp);
    assert_eq!(entries[1].timestamp, entries[2].timestamp);
    assert!(entries[0].timestamp.loggable());
    assert!(sentinel.flight_recorder.verify_chain());
}

#[test]
fn a_log_failure_stops_the_evaluation_before_anything_changes() {
    let mut sentinel = Sentinel::new([0u8; 32]);
    for i in 0..100 {
        sentinel.record_execution_at(&format!("delete_file_{}", i), false, at(-10));
    }
    let err = sentinel.evaluate_action_at("x", 5_000_000, at(-10), 0).unwrap_err();
    assert!(matches!(err, SentinelError::SerializationError(_)));
    assert!(sentinel.flight_recorder.is_empty());
    assert_eq!(sentinel.current_level(), GovernanceLevel::Observation);
    assert_eq!(sentinel.trajectory_monitor.action_count(), 100);
}

#[test]
fn record_execution_feeds_the_monitor_and_logs_nothing() {
    let mut sentinel = Sentinel::new([0u8; 32]);
    sentinel.record_execution("write_file", true);
    sentinel.record_execution_at("delete_file", false, at(50));
    assert_eq!(sentinel.trajectory_monitor.action_count(), 2);
    assert_eq!(sentinel.trajectory_monitor.compute_reversibility(), 500_000);
    assert!(sentinel.flight_recorder.is_empty());
}

#[test]
fn human_checkpoint_resets_the_latency_and_is_logged() {
    let mut sentinel = Sentinel::new([0u8; 32]);
    let later = at(4_000_000_000);
    assert_eq!(sentinel.trajectory_monitor.compute_human_latency(&later), 1_000_000);
    sentinel.human_checkpoint_at(later).unwrap();
    assert_eq!(sentinel.trajectory_monitor.compute_human_latency(&later), 0);
    assert_eq!(sentinel.current_gamma_at(later, 0), 0);
    assert_eq!(sentinel.flight_recorder.len(), 1);
    let entry = sentinel.flight_recorder.latest().unwrap();
    assert!(matches!(&entry.entry_type, LogEntryType::HumanCheckpoint { operator_id: None }));
    assert_eq!(entry.timestamp, later);

    // A checkpoint that cannot be logged does not reach the monitor.
    let err = sentinel.human_checkpoint_at(at(300_000_000_000)).unwrap_err();
    assert!(matches!(err, SentinelError::SerializationError(_)));
    assert_eq!(sentinel.flight_recorder.len(), 1);
    assert_eq!(sentinel.trajectory_monitor.compute_human_latency(&later), 0);

    sentinel.human_checkpoint().unwrap();
    assert_eq!(sentinel.flight_recorder.len(), 2);
    assert!(sentinel.flight_recorder.verify_chain());
}

#[test]
fn a_risky_trajectory_climbs_the_ladder() {
    let mut sentinel = Sentinel::new([0u8; 32]);
    let start = sentinel.trajectory_monitor.compute_gamma(0).computed_at;
    sentinel.trajectory_monitor.set_original_scope(&["read_file"]);
    sentinel.record_execution_at("read_file", true, start);
    let calm = sentinel.evaluate_action_at("read_file", entropy_of(&sentinel), start, 0).unwrap();
    assert_eq!(calm.level, GovernanceLevel::Observation);

    for i in 0..650 {
        sentinel.record_execution_at(&format!("delete_{}", i), false, start);
    }
    let hours_later = Timestamp::new(start.secs + 9 * 3_600, 0);
    for i in 0..650 {
        sentinel.record_execution_at(&format!("purge_{}", i), false, hours_later);
    }
    let microbits = entropy_of(&sentinel);
    let gamma = sentinel.current_gamma_at(hours_later, microbits);
    assert_eq!(gamma, 1_000_000);
    let decision = sentinel.evaluate_action_at("purge_all", microbits, hours_later, 10).unwrap();
    assert_eq!(decision.level, GovernanceLevel::Suspension);
    assert!(decision.escalated);
    assert!(decision.blocked);
    assert_eq!(decision.delay_ms, None);
    assert!(decision.requires_confirmation);
    assert_eq!(sentinel.current_level(), GovernanceLevel::Suspension);
    assert!(sentinel.flight_recorder.verify_chain());
    assert_eq!(sentinel.flight_recorder.len(), 6);
}
