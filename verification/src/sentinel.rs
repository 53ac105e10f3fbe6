//! The orchestrator: one decision path through the five components.
//!
//! To evaluate an action, the attempt is logged, the monitor is asked for
//! the composite risk score, the score is logged, the controller decides on
//! it, and the decision is logged and returned. The three entries carry the
//! same timestamp and stand in that order.

use vstd::prelude::*;
use crate::context::ContextEvaluator;
use crate::error::SentinelError;
use crate::flight_recorder::{FlightRecorder, LogEntry, LogEntryType};
use crate::gamma::{GammaWeights, MonitorState, TrajectoryMonitor};
use crate::simplex::{
    ControllerState,
    GammaThresholds,
    GovernanceLevel,
    InterventionController,
    SimplexDecision,
};
use crate::time::{wall_clock_now, Timestamp};
use crate::vdf::RateShaper;

verus! {

/// The delay of the rate shaper of a new `Sentinel`, in milliseconds.
pub const DEFAULT_SHAPER_DELAY_MS: u64 = 1000;

/// `after` is `before` with the three entries of one evaluation added: the
/// attempt of `action`, the score `gamma`, and `decision`, all made at
/// `now`.
pub open spec fn evaluation_logged(
    before: Seq<LogEntry>,
    after: Seq<LogEntry>,
    action: Seq<char>,
    gamma: u64,
    decision: SimplexDecision,
    now: Timestamp,
) -> bool {
    let n = before.len() as int;
    &&& after.len() == n + 3
    &&& after.subrange(0, n) == before
    &&& after[n].timestamp == now
    &&& after[n + 1].timestamp == now
    &&& after[n + 2].timestamp == now
    &&& after[n].entry_type matches LogEntryType::ActionAttempt { action: a }
    &&& a@ == action
    &&& after[n + 1].entry_type == (LogEntryType::GammaUpdate { gamma })
    &&& after[n + 2].entry_type == (LogEntryType::Intervention { decision })
}

/// The governance engine: the five components, owned by one orchestrator.
pub struct Sentinel {
    pub context_evaluator: ContextEvaluator,
    pub trajectory_monitor: TrajectoryMonitor,
    pub rate_shaper: RateShaper,
    pub intervention_controller: InterventionController,
    pub flight_recorder: FlightRecorder,
}

impl Sentinel {
    /// The log's chain is intact and the monitor is well formed.
    pub open spec fn wf(&self) -> bool {
        &&& self.flight_recorder.wf()
        &&& self.trajectory_monitor@.wf()
    }

    /// What an evaluation of `action` at wall-clock time `now` and
    /// monotonic time `now_ms` does, for an entropy of `microbits`, taking
    /// the engine from `self` to `after` with the result `r`.
    ///
    /// With a timestamp that the log can carry, the result is the
    /// controller's decision on the monitor's composite score, the
    /// controller has taken its step, and the log has grown by the three
    /// entries. With any other timestamp the first append fails, the
    /// error is handed on, and nothing has changed. The monitor is never
    /// touched.
    pub open spec fn evaluated(
        &self,
        action: Seq<char>,
        microbits: u64,
        now: Timestamp,
        now_ms: u64,
        after: &Sentinel,
        r: Result<SimplexDecision, SentinelError>,
    ) -> bool {
        let gamma = self.trajectory_monitor@.composite(now, microbits) as u64;
        &&& after.trajectory_monitor@ == self.trajectory_monitor@
        &&& after.rate_shaper@ == self.rate_shaper@
        &&& if now.is_loggable() {
            &&& r matches Ok(decision)
            &&& self.intervention_controller@.decision_is(gamma, now_ms, decision)
            &&& after.intervention_controller@ == self.intervention_controller@.step(gamma, now_ms)
            &&& evaluation_logged(
                self.flight_recorder@,
                after.flight_recorder@,
                action,
                gamma,
                decision,
                now,
            )
        } else {
            &&& r matches Err(e)
            &&& e is SerializationError
            &&& after.intervention_controller@ == self.intervention_controller@
            &&& after.flight_recorder@ == self.flight_recorder@
        }
    }

    /// What a human checkpoint at `now` does: with a timestamp that the
    /// log can carry, the checkpoint is logged and the monitor's latency
    /// clock restarts; with any other, the append fails and nothing has
    /// changed.
    pub open spec fn checkpointed(
        &self,
        now: Timestamp,
        after: &Sentinel,
        r: Result<(), SentinelError>,
    ) -> bool {
        &&& after.intervention_controller@ == self.intervention_controller@
        &&& after.rate_shaper@ == self.rate_shaper@
        &&& if now.is_loggable() {
            &&& r is Ok
            &&& after.trajectory_monitor@ == self.trajectory_monitor@.checkpointed(now)
            &&& after.flight_recorder@.len() == self.flight_recorder@.len() + 1
            &&& after.flight_recorder@.subrange(0, self.flight_recorder@.len() as int)
                == self.flight_recorder@
            &&& after.flight_recorder@.last().timestamp == now
            &&& after.flight_recorder@.last().entry_type == (LogEntryType::HumanCheckpoint {
                operator_id: None,
            })
        } else {
            &&& r matches Err(e)
            &&& e is SerializationError
            &&& after.trajectory_monitor@ == self.trajectory_monitor@
            &&& after.flight_recorder@ == self.flight_recorder@
        }
    }

    /// An engine with the standard weights and thresholds, a rate shaper
    /// of one second, an empty log and the level `Observation`.
    pub fn new(master_key: [u8; 32]) -> (sentinel: Sentinel)
        ensures
            sentinel.wf(),
            sentinel.context_evaluator.master() == master_key@,
            exists|now: Timestamp|
                sentinel.trajectory_monitor@ == #[trigger] MonitorState::initial(
                    GammaWeights::standard(),
                    now,
                ),
            sentinel.intervention_controller@ == ControllerState::initial(
                GammaThresholds::standard(),
            ),
            sentinel.rate_shaper@.target_delay_ms == DEFAULT_SHAPER_DELAY_MS,
            sentinel.flight_recorder@ == Seq::<LogEntry>::empty(),
    {
        Sentinel {
            context_evaluator: ContextEvaluator::new(master_key),
            trajectory_monitor: TrajectoryMonitor::new(GammaWeights::default()),
            rate_shaper: RateShaper::new(DEFAULT_SHAPER_DELAY_MS),
            intervention_controller: InterventionController::new(),
            flight_recorder: FlightRecorder::new(),
        }
    }

    /// Decides whether `action` may proceed, at wall-clock time `now` and
    /// with the controller's clock at `now_ms`. The entropy of the
    /// monitor's window comes in as `microbits`.
    pub fn evaluate_action_at(
        &mut self,
        action: &str,
        microbits: u64,
        now: Timestamp,
        now_ms: u64,
    ) -> (r: Result<SimplexDecision, SentinelError>)
        requires
            old(self).wf(),
        ensures
            final(self).wf(),
            old(self).evaluated(action@, microbits, now, now_ms, final(self), r),
    {
        let ghost before = self.flight_recorder@;
        match self.flight_recorder.append_at(
            LogEntryType::ActionAttempt { action: action.to_owned() },
            now,
        ) {
            Ok(()) => {},
            Err(e) => {
                return Err(e);
            },
        }
        let ghost first = self.flight_recorder@;
        let gamma = self.trajectory_monitor.compute_gamma_at(now, microbits);
        match self.flight_recorder.append_at(
            LogEntryType::GammaUpdate { gamma: gamma.composite },
            now,
        ) {
            Ok(()) => {},
            Err(e) => {
                return Err(e);
            },
        }
        let ghost second = self.flight_recorder@;
        let decision = self.intervention_controller.decide_at(gamma.composite, now_ms);
        match self.flight_recorder.append_at(
            LogEntryType::Intervention { decision: decision.duplicate() },
            now,
        ) {
            Ok(()) => {},
            Err(e) => {
                return Err(e);
            },
        }
        proof {
            let after = self.flight_recorder@;
            let n = before.len() as int;
            assert(second.subrange(0, n + 1) == first);
            assert(after.subrange(0, n + 2) == second);
            assert(after[n] == second[n]);
            assert(second[n] == first[n]);
            assert(after[n + 1] == second[n + 1]);
            assert(after.subrange(0, n) =~= before) by {
                assert(first.subrange(0, n) == before);
                assert forall|i: int| 0 <= i < n implies after[i] == before[i] by {
                    assert(after[i] == after.subrange(0, n + 2)[i]);
                    assert(second[i] == second.subrange(0, n + 1)[i]);
                    assert(first[i] == first.subrange(0, n)[i]);
                }
            }
            assert(first.last() == first[n]);
            assert(second.last() == second[n + 1]);
            assert(after.last() == after[n + 2]);
        }
        Ok(decision)
    }

    /// Decides whether `action` may proceed now. The clocks are read once,
    /// before anything else is done.
    pub fn evaluate_action(&mut self, action: &str, microbits: u64) -> (r: Result<
        SimplexDecision,
        SentinelError,
    >)
        requires
            old(self).wf(),
        ensures
            final(self).wf(),
            exists|now: Timestamp, now_ms: u64| #[trigger]
                old(self).evaluated(action@, microbits, now, now_ms, final(self), r),
    {
        let now = wall_clock_now();
        let now_ms: u64 = self.intervention_controller.clock_ms();
        self.evaluate_action_at(action, microbits, now, now_ms)
    }

    /// Tells the monitor, at `now`, that an action was carried out.
    /// Nothing is logged.
    pub fn record_execution_at(&mut self, action: &str, reversible: bool, now: Timestamp)
        requires
            old(self).wf(),
        ensures
            final(self).wf(),
            final(self).trajectory_monitor@ == old(self).trajectory_monitor@.recorded(
                action@,
                reversible,
                now,
            ),
            final(self).intervention_controller@ == old(self).intervention_controller@,
            final(self).rate_shaper@ == old(self).rate_shaper@,
            final(self).flight_recorder@ == old(self).flight_recorder@,
    {
        self.trajectory_monitor.record_action_at(action, reversible, now);
    }

    /// Tells the monitor that an action was carried out now.
    pub fn record_execution(&mut self, action: &str, reversible: bool)
        requires
            old(self).wf(),
        ensures
            final(self).wf(),
            exists|now: Timestamp|
                final(self).trajectory_monitor@ == #[trigger] old(
                    self,
                ).trajectory_monitor@.recorded(action@, reversible, now),
            final(self).intervention_controller@ == old(self).intervention_controller@,
            final(self).rate_shaper@ == old(self).rate_shaper@,
            final(self).flight_recorder@ == old(self).flight_recorder@,
    {
        self.trajectory_monitor.record_action(action, reversible);
    }

    /// Logs a human checkpoint made at `now` and restarts the monitor's
    /// latency clock. The log comes first: if the append fails, the
    /// monitor is left alone.
    pub fn human_checkpoint_at(&mut self, now: Timestamp) -> (r: Result<(), SentinelError>)
        requires
            old(self).wf(),
        ensures
            final(self).wf(),
            old(self).checkpointed(now, final(self), r),
    {
        match self.flight_recorder.append_at(
            LogEntryType::HumanCheckpoint { operator_id: None },
            now,
        ) {
            Ok(()) => {},
            Err(e) => {
                return Err(e);
            },
        }
        self.trajectory_monitor.human_checkpoint_at(now);
        Ok(())
    }

    /// Logs a human checkpoint made now and restarts the monitor's latency
    /// clock.
    pub fn human_checkpoint(&mut self) -> (r: Result<(), SentinelError>)
        requires
            old(self).wf(),
        ensures
            final(self).wf(),
            exists|now: Timestamp| #[trigger] old(self).checkpointed(now, final(self), r),
    {
        let now = wall_clock_now();
        self.human_checkpoint_at(now)
    }

    /// The current governance level.
    pub fn current_level(&self) -> (level: GovernanceLevel)
        ensures
            level == self.intervention_controller@.level,
    {
        self.intervention_controller.current_level()
    }

    /// The composite risk score at `now`, for an entropy of `microbits`.
    pub fn current_gamma_at(&self, now: Timestamp, microbits: u64) -> (gamma: u64)
        ensures
            gamma == self.trajectory_monitor@.composite(now, microbits),
            gamma <= crate::score::ONE,
    {
        self.trajectory_monitor.compute_gamma_at(now, microbits).composite
    }

    /// The composite risk score now, for an entropy of `microbits`.
    pub fn current_gamma(&self, microbits: u64) -> (gamma: u64)
        ensures
            exists|now: Timestamp|
                gamma == #[trigger] self.trajectory_monitor@.composite(now, microbits),
            gamma <= crate::score::ONE,
    {
        let now = wall_clock_now();
        self.current_gamma_at(now, microbits)
    }
}

} // verus!
