use sentinel_core::gamma::weighted_sum;
use sentinel_core::score::fraction_of;
use sentinel_core::{GammaWeights, Timestamp, TrajectoryMonitor};

/// The Shannon entropy of a distribution, in millionths of a bit.
fn entropy_microbits(counts: &[u64]) -> u64 {
    let total: f64 = counts.iter().map(|c| *c as f64).sum();
    let mut entropy = 0.0;
    for count in counts {
        let p = (*count as f64) / total;
        if p > 0.0 {
            entropy -= p * p.log2();
        }
    }
    (entropy * 1_000_000.0).round() as u64
}

fn entropy_of(monitor: &TrajectoryMonitor) -> u64 {
    entropy_microbits(&monitor.action_type_counts())
}

fn at(secs: i64) -> Timestamp {
    Timestamp::new(secs, 0)
}

fn fresh() -> TrajectoryMonitor {
    TrajectoryMonitor::new_at(GammaWeights::default(), at(1_000))
}

#[test]
fn test_gamma_weights_default_sum() {
    let weights = GammaWeights::default();
    assert!(weights.validate(), "Default weights should sum to 1.0");
}

#[test]
fn test_empty_monitor_gamma() {
    let monitor = TrajectoryMonitor::new(GammaWeights::default());
    let gamma = monitor.compute_gamma(entropy_of(&monitor));
    assert!(gamma.composite <= 1_000_000);
}

#[test]
fn test_irreversible_actions_increase_gamma() {
    let mut monitor = TrajectoryMonitor::new(GammaWeights::default());

    // Record many irreversible actions
    for i in 0..50 {
        monitor.record_action(&format!("delete_{}", i), false);
    }

    let gamma = monitor.compute_gamma(entropy_of(&monitor));
    assert!(
        gamma.reversibility > 500_000,
        "Many irreversible actions should elevate reversibility component"
    );
}

#[test]
fn test_human_checkpoint_resets_latency() {
    let mut monitor = TrajectoryMonitor::new(GammaWeights::default());

    let gamma_before = monitor.compute_gamma(entropy_of(&monitor));
    monitor.human_checkpoint();
    let gamma_after = monitor.compute_gamma(entropy_of(&monitor));

    assert!(gamma_after.human_latency <= gamma_before.human_latency);
}

#[test]
fn test_scope_expansion() {
    let mut monitor = TrajectoryMonitor::new(GammaWeights::default());
    monitor.set_original_scope(&["read_file", "write_file"]);

    // Actions within scope
    monitor.record_action("read_file", true);
    monitor.record_action("write_file", true);

    let gamma_in_scope = monitor.compute_gamma(entropy_of(&monitor));

    // Actions outside scope
    monitor.record_action("delete_database", false);
    monitor.record_action("send_email", false);

    let gamma_out_of_scope = monitor.compute_gamma(entropy_of(&monitor));

    assert!(gamma_out_of_scope.scope > gamma_in_scope.scope);
}

#[test]
fn default_weights_sum_to_exactly_one() {
    let w = GammaWeights::default();
    assert_eq!(w.w_entropy, 150_000);
    assert_eq!(w.w_velocity, 200_000);
    assert_eq!(w.w_scope, 200_000);
    assert_eq!(w.w_reversibility, 250_000);
    assert_eq!(w.w_human_latency, 200_000);
    assert_eq!(w.w_entropy + w.w_velocity + w.w_scope + w.w_reversibility + w.w_human_latency, 1_000_000);
    assert_eq!(*fresh().weights(), w);
}

#[test]
fn weights_are_valid_within_a_thousandth_of_one() {
    let w = GammaWeights::default();
    assert!(GammaWeights { w_entropy: 150_999, ..w }.validate());
    assert!(!GammaWeights { w_entropy: 151_000, ..w }.validate());
    assert!(GammaWeights { w_entropy: 149_001, ..w }.validate());
    assert!(!GammaWeights { w_entropy: 149_000, ..w }.validate());
    assert!(!GammaWeights { w_entropy: u64::MAX, w_velocity: u64::MAX, ..w }.validate());
    let zero = GammaWeights { w_entropy: 0, w_velocity: 0, w_scope: 0, w_reversibility: 0, w_human_latency: 0 };
    assert!(!zero.validate());
}

#[test]
fn empty_monitor_scores_are_zero() {
    let monitor = fresh();
    let gamma = monitor.compute_gamma_at(at(1_000), 3_000_000);
    assert_eq!(gamma.entropy, 0);
    assert_eq!(gamma.velocity, 0);
    assert_eq!(gamma.scope, 0);
    assert_eq!(gamma.reversibility, 0);
    assert_eq!(gamma.human_latency, 0);
    assert_eq!(gamma.composite, 0);
    assert_eq!(gamma.computed_at, at(1_000));
    assert_eq!(monitor.action_count(), 0);
    assert_eq!(monitor.action_type_counts(), Vec::<u64>::new());
}

#[test]
fn reversibility_is_the_share_of_irreversible_actions() {
    let mut monitor = fresh();
    monitor.record_action_at("a", false, at(1_000));
    assert_eq!(monitor.compute_reversibility(), 1_000_000);
    monitor.record_action_at("b", true, at(1_000));
    assert_eq!(monitor.compute_reversibility(), 500_000);
    monitor.record_action_at("c", true, at(1_000));
    assert_eq!(monitor.compute_reversibility(), 333_333);
    monitor.record_action_at("d", false, at(1_000));
    monitor.record_action_at("e", false, at(1_000));
    monitor.record_action_at("f", false, at(1_000));
    assert_eq!(monitor.compute_reversibility(), 666_666);

    let mut all_reversible = fresh();
    for _ in 0..10 {
        all_reversible.record_action_at("read", true, at(1_000));
    }
    assert_eq!(all_reversible.compute_reversibility(), 0);

    let mut none_reversible = fresh();
    for i in 0..50 {
        none_reversible.record_action_at(&format!("delete_{}", i), false, at(1_000));
    }
    assert_eq!(none_reversible.compute_reversibility(), 1_000_000);
}

#[test]
fn scope_is_the_share_of_actions_outside_it() {
    let mut monitor = fresh();
    monitor.record_action_at("delete", false, at(1_000));
    // No scope set: nothing is outside it.
    assert_eq!(monitor.compute_scope_expansion(), 0);
    monitor.set_original_scope(&[]);
    assert_eq!(monitor.compute_scope_expansion(), 0);

    monitor.set_original_scope(&["read_file", "write_file", "read_file"]);
    assert_eq!(monitor.compute_scope_expansion(), 1_000_000);
    monitor.record_action_at("read_file", true, at(1_000));
    assert_eq!(monitor.compute_scope_expansion(), 500_000);
    monitor.record_action_at("write_file", true, at(1_000));
    assert_eq!(monitor.compute_scope_expansion(), 333_333);
    monitor.record_action_at("read_file ", true, at(1_000));
    assert_eq!(monitor.compute_scope_expansion(), 500_000);

    // Setting the scope anew replaces it.
    monitor.set_original_scope(&["delete"]);
    assert_eq!(monitor.compute_scope_expansion(), 750_000);

    let mut empty = fresh();
    empty.set_original_scope(&["read_file"]);
    assert_eq!(empty.compute_scope_expansion(), 0);
}

#[test]
fn recording_outside_the_scope_raises_the_scope_score() {
    let mut monitor = fresh();
    monitor.set_original_scope(&["read_file"]);
    monitor.record_action_at("read_file", true, at(1_000));
    let mut last = monitor.compute_scope_expansion();
    assert_eq!(last, 0);
    for i in 0..998 {
        monitor.record_action_at("delete", false, at(1_000 + i));
        let now = monitor.compute_scope_expansion();
        assert!(now > last);
        last = now;
    }
    assert_eq!(monitor.action_count(), 999);
    assert_eq!(last, 998_998);
}

#[test]
fn velocity_counts_the_last_minute() {
    let mut monitor = fresh();
    monitor.record_action_at("a", true, at(1_000));
    // Fewer than two actions: zero.
    assert_eq!(monitor.compute_velocity(&at(1_000)), 0);
    monitor.record_action_at("a", true, at(1_010));
    assert_eq!(monitor.compute_velocity(&at(1_010)), fraction_of(2, 600));
    assert_eq!(monitor.compute_velocity(&at(1_010)), 3_333);
    // An action exactly a minute old no longer counts.
    assert_eq!(monitor.compute_velocity(&at(1_059)), 3_333);
    assert_eq!(monitor.compute_velocity(&at(1_060)), 1_666);
    assert_eq!(monitor.compute_velocity(&Timestamp::new(1_059, 999_999_999)), 3_333);
    assert_eq!(monitor.compute_velocity(&at(1_070)), 0);
    for _ in 0..298 {
        monitor.record_action_at("a", true, at(1_100));
    }
    assert_eq!(monitor.compute_velocity(&at(1_100)), 496_666);
    for _ in 0..302 {
        monitor.record_action_at("a", true, at(1_100));
    }
    assert_eq!(monitor.compute_velocity(&at(1_100)), 1_000_000);
    for _ in 0..300 {
        monitor.record_action_at("a", true, at(1_100));
    }
    assert_eq!(monitor.compute_velocity(&at(1_100)), 1_000_000);
}

#[test]
fn human_latency_is_the_time_since_the_checkpoint_over_eight_hours() {
    let mut monitor = fresh();
    assert_eq!(monitor.compute_human_latency(&at(1_000)), 0);
    assert_eq!(monitor.compute_human_latency(&at(500)), 0);
    assert_eq!(monitor.compute_human_latency(&Timestamp::new(1_000, 999_999_999)), 0);
    assert_eq!(monitor.compute_human_latency(&at(1_001)), 34);
    assert_eq!(monitor.compute_human_latency(&at(1_000 + 3_600)), 125_000);
    assert_eq!(monitor.compute_human_latency(&at(1_000 + 14_400)), 500_000);
    assert_eq!(monitor.compute_human_latency(&at(1_000 + 28_799)), 999_965);
    assert_eq!(monitor.compute_human_latency(&at(1_000 + 28_800)), 1_000_000);
    assert_eq!(monitor.compute_human_latency(&at(i64::MAX)), 1_000_000);

    monitor.human_checkpoint_at(at(20_000));
    assert_eq!(monitor.compute_human_latency(&at(20_000)), 0);
    assert_eq!(monitor.compute_gamma_at(at(20_000), 0).human_latency, 0);
    assert_eq!(monitor.compute_human_latency(&at(20_000 + 7_200)), 250_000);

    let far = TrajectoryMonitor::new_at(GammaWeights::default(), Timestamp::new(i64::MIN, 0));
    assert_eq!(far.compute_human_latency(&Timestamp::new(i64::MAX, u32::MAX)), 1_000_000);
}

#[test]
fn entropy_score_is_the_entropy_over_five_bits() {
    let mut monitor = fresh();
    assert_eq!(monitor.compute_entropy(4_000_000), 0);
    monitor.record_action_at("a", true, at(1_000));
    assert_eq!(monitor.compute_entropy(0), 0);
    assert_eq!(monitor.compute_entropy(1_000_000), 200_000);
    assert_eq!(monitor.compute_entropy(2_500_000), 500_000);
    assert_eq!(monitor.compute_entropy(4_999_999), 999_999);
    assert_eq!(monitor.compute_entropy(5_000_000), 1_000_000);
    assert_eq!(monitor.compute_entropy(u64::MAX), 1_000_000);
}

#[test]
fn action_type_counts_is_the_distribution_of_the_window() {
    let mut monitor = fresh();
    for action in ["b", "a", "b", "c", "b", "a"] {
        monitor.record_action_at(action, true, at(1_000));
    }
    assert_eq!(monitor.action_type_counts(), vec![3, 2, 1]);
    assert_eq!(entropy_of(&monitor), 1_459_148);

    let mut uniform = fresh();
    for action in ["a", "b", "c", "d"] {
        uniform.record_action_at(action, true, at(1_000));
    }
    assert_eq!(uniform.action_type_counts(), vec![1, 1, 1, 1]);
    assert_eq!(entropy_of(&uniform), 2_000_000);
    assert_eq!(uniform.compute_gamma_at(at(1_000), entropy_of(&uniform)).entropy, 400_000);
}

#[test]
fn composite_is_the_weighted_sum() {
    let w = GammaWeights::default();
    assert_eq!(weighted_sum(&w, 0, 0, 0, 0, 0), 0);
    assert_eq!(weighted_sum(&w, 1_000_000, 1_000_000, 1_000_000, 1_000_000, 1_000_000), 1_000_000);
    assert_eq!(weighted_sum(&w, 1_000_000, 0, 0, 0, 0), 150_000);
    assert_eq!(weighted_sum(&w, 0, 0, 0, 1_000_000, 0), 250_000);
    assert_eq!(weighted_sum(&w, 400_000, 5_000, 500_000, 750_000, 125_000), 373_500);
    assert_eq!(weighted_sum(&w, 1, 1, 1, 1, 1), 1);
    assert_eq!(weighted_sum(&w, 3, 0, 0, 0, 0), 0);
    let heavy = GammaWeights { w_reversibility: u64::MAX, ..w };
    assert_eq!(weighted_sum(&heavy, 0, 0, 0, 1_000_000, 0), 1_000_000);
    assert_eq!(weighted_sum(&heavy, 0, 0, 0, 1, 0), 1_000_000);
}

#[test]
fn gamma_of_a_known_window() {
    let mut monitor = fresh();
    monitor.set_original_scope(&["read"]);
    monitor.record_action_at("read", true, at(1_000));
    monitor.record_action_at("read", true, at(1_100));
    monitor.record_action_at("delete", false, at(1_150));
    monitor.record_action_at("send", false, at(1_160));
    let now = at(1_000 + 3_600);
    let gamma = monitor.compute_gamma_at(now, 1_500_000);
    assert_eq!(gamma.entropy, 300_000);
    assert_eq!(gamma.velocity, 0);
    assert_eq!(gamma.scope, 500_000);
    assert_eq!(gamma.reversibility, 500_000);
    assert_eq!(gamma.human_latency, 125_000);
    // 0.15 * 0.3 + 0.2 * 0 + 0.2 * 0.5 + 0.25 * 0.5 + 0.2 * 0.125
    assert_eq!(gamma.composite, 295_000);
    assert_eq!(gamma.computed_at, now);

    let soon = monitor.compute_gamma_at(at(1_170), 1_500_000);
    // Two of the four actions lie within the last minute.
    assert_eq!(soon.velocity, 3_333);
    assert_eq!(soon.human_latency, 5_902);
    assert_eq!(soon.composite, 271_847);
}

#[test]
fn gamma_stays_within_zero_and_one() {
    let mut monitor = fresh();
    monitor.set_original_scope(&["read"]);
    for i in 0..700 {
        monitor.record_action_at(&format!("delete_{}", i), false, at(50_000));
    }
    let gamma = monitor.compute_gamma_at(at(50_000), u64::MAX);
    assert_eq!(gamma.entropy, 1_000_000);
    assert_eq!(gamma.velocity, 1_000_000);
    assert_eq!(gamma.scope, 1_000_000);
    assert_eq!(gamma.reversibility, 1_000_000);
    assert_eq!(gamma.human_latency, 1_000_000);
    assert_eq!(gamma.composite, 1_000_000);
}

#[test]
fn window_holds_the_latest_thousand_actions() {
    let mut monitor = fresh();
    for _ in 0..1_000 {
        monitor.record_action_at("old", false, at(1_000));
    }
    assert_eq!(monitor.action_count(), 1_000);
    assert_eq!(monitor.compute_reversibility(), 1_000_000);
    monitor.record_action_at("new", true, at(1_000));
    assert_eq!(monitor.action_count(), 1_000);
    assert_eq!(monitor.compute_reversibility(), 999_000);
    assert_eq!(monitor.action_type_counts(), vec![999, 1]);
    for _ in 0..999 {
        monitor.record_action_at("new", true, at(1_000));
    }
    assert_eq!(monitor.action_count(), 1_000);
    assert_eq!(monitor.compute_reversibility(), 0);
    assert_eq!(monitor.action_type_counts(), vec![1_000]);
    // The lifetime counts go on beyond the window.
    assert_eq!(monitor.baseline_count("old"), 1_000);
    assert_eq!(monitor.baseline_count("new"), 1_000);
    assert_eq!(monitor.baseline_count("never"), 0);
}

#[test]
fn a_full_window_can_hide_a_step_outside_the_scope() {
    // When the action that leaves a full window was itself outside the
    // scope, recording another one outside it keeps the share as it was.
    let mut monitor = fresh();
    monitor.set_original_scope(&["read"]);
    monitor.record_action_at("delete", false, at(1_000));
    for _ in 0..999 {
        monitor.record_action_at("read", true, at(1_000));
    }
    assert_eq!(monitor.compute_scope_expansion(), 1_000);
    monitor.record_action_at("delete", false, at(1_000));
    assert_eq!(monitor.compute_scope_expansion(), 1_000);
    // With an action within the scope leaving, the score goes up.
    monitor.record_action_at("delete", false, at(1_000));
    assert_eq!(monitor.compute_scope_expansion(), 2_000);
}

#[test]
fn fraction_rounds_down_and_is_capped() {
    assert_eq!(fraction_of(0, 0), 0);
    assert_eq!(fraction_of(5, 0), 0);
    assert_eq!(fraction_of(0, 5), 0);
    assert_eq!(fraction_of(1, 3), 333_333);
    assert_eq!(fraction_of(2, 3), 666_666);
    assert_eq!(fraction_of(3, 3), 1_000_000);
    assert_eq!(fraction_of(4, 3), 1_000_000);
    assert_eq!(fraction_of(u64::MAX, 1), 1_000_000);
    assert_eq!(fraction_of(u64::MAX, u64::MAX), 1_000_000);
    assert_eq!(fraction_of(1, u64::MAX), 0);
}
