//! The intervention controller: a ladder of governance levels that is
//! climbed at once and descended one rung at a time.
//!
//! A risk score that reaches the threshold of a higher level moves the
//! controller there immediately, however many levels that skips. To come
//! down, the score must fall below the current level's threshold by the
//! hysteresis margin, and the controller must have dwelt at its level for
//! the minimum duration; it then drops exactly one level.

use vstd::prelude::*;
use vstd::string::*;
use crate::score::{push_three_decimals, three_decimals, ONE};
use crate::time::millis_since;

verus! {

/// Governance levels, from the least to the most restrictive.
#[derive(Debug, Clone, Copy, PartialEq, Eq, PartialOrd, Ord, Structural)]
pub enum GovernanceLevel {
    /// Level 0: actions are only logged.
    Observation,
    /// Level 1: a delay is put before each action.
    Friction,
    /// Level 2: consequential actions need confirmation.
    Confirmation,
    /// Level 3: high-risk capabilities are switched off.
    Restriction,
    /// Level 4: every action needs human approval.
    Supervision,
    /// Level 5: execution is halted.
    Suspension,
}

impl GovernanceLevel {
    /// The level's number, 0 to 5.
    pub open spec fn rank(self) -> int {
        match self {
            GovernanceLevel::Observation => 0,
            GovernanceLevel::Friction => 1,
            GovernanceLevel::Confirmation => 2,
            GovernanceLevel::Restriction => 3,
            GovernanceLevel::Supervision => 4,
            GovernanceLevel::Suspension => 5,
        }
    }

    /// The level with the given number; numbers above 5 give `Suspension`.
    pub open spec fn of_rank(rank: int) -> GovernanceLevel {
        if rank <= 0 {
            GovernanceLevel::Observation
        } else if rank == 1 {
            GovernanceLevel::Friction
        } else if rank == 2 {
            GovernanceLevel::Confirmation
        } else if rank == 3 {
            GovernanceLevel::Restriction
        } else if rank == 4 {
            GovernanceLevel::Supervision
        } else {
            GovernanceLevel::Suspension
        }
    }

    /// The next level up; `Suspension` stays.
    pub open spec fn raised(self) -> GovernanceLevel {
        Self::of_rank(self.rank() + 1)
    }

    /// The next level down; `Observation` stays.
    pub open spec fn lowered(self) -> GovernanceLevel {
        Self::of_rank(self.rank() - 1)
    }

    /// The level's name as it is shown to people.
    pub open spec fn name(self) -> Seq<char> {
        match self {
            GovernanceLevel::Observation => "Level 0: Observation"@,
            GovernanceLevel::Friction => "Level 1: Friction"@,
            GovernanceLevel::Confirmation => "Level 2: Confirmation"@,
            GovernanceLevel::Restriction => "Level 3: Restriction"@,
            GovernanceLevel::Supervision => "Level 4: Supervision"@,
            GovernanceLevel::Suspension => "Level 5: Suspension"@,
        }
    }

    /// The delay put before an action at this level, in milliseconds.
    pub open spec fn delay(self) -> Option<u64> {
        match self {
            GovernanceLevel::Observation => None,
            GovernanceLevel::Friction => Some(500u64),
            GovernanceLevel::Confirmation => Some(1000u64),
            GovernanceLevel::Restriction => Some(2000u64),
            GovernanceLevel::Supervision => Some(5000u64),
            GovernanceLevel::Suspension => None,
        }
    }

    /// The next more restrictive level.
    pub fn escalate(&self) -> (up: GovernanceLevel)
        ensures
            up == self.raised(),
            up.rank() == if self.rank() < 5 { self.rank() + 1 } else { 5 },
    {
        match self {
            GovernanceLevel::Observation => GovernanceLevel::Friction,
            GovernanceLevel::Friction => GovernanceLevel::Confirmation,
            GovernanceLevel::Confirmation => GovernanceLevel::Restriction,
            GovernanceLevel::Restriction => GovernanceLevel::Supervision,
            GovernanceLevel::Supervision => GovernanceLevel::Suspension,
            GovernanceLevel::Suspension => GovernanceLevel::Suspension,
        }
    }

    /// The next less restrictive level.
    pub fn deescalate(&self) -> (down: GovernanceLevel)
        ensures
            down == self.lowered(),
            down.rank() == if self.rank() > 0 { self.rank() - 1 } else { 0 },
    {
        match self {
            GovernanceLevel::Observation => GovernanceLevel::Observation,
            GovernanceLevel::Friction => GovernanceLevel::Observation,
            GovernanceLevel::Confirmation => GovernanceLevel::Friction,
            GovernanceLevel::Restriction => GovernanceLevel::Confirmation,
            GovernanceLevel::Supervision => GovernanceLevel::Restriction,
            GovernanceLevel::Suspension => GovernanceLevel::Supervision,
        }
    }

    /// The level's number.
    pub fn as_u8(&self) -> (n: u8)
        ensures
            n == self.rank(),
    {
        match self {
            GovernanceLevel::Observation => 0,
            GovernanceLevel::Friction => 1,
            GovernanceLevel::Confirmation => 2,
            GovernanceLevel::Restriction => 3,
            GovernanceLevel::Supervision => 4,
            GovernanceLevel::Suspension => 5,
        }
    }

    /// The level with the given number; any number above 5 gives
    /// `Suspension`.
    pub fn from_u8(level: u8) -> (l: GovernanceLevel)
        ensures
            l == Self::of_rank(level as int),
            l.rank() == if level <= 5 { level as int } else { 5 },
    {
        match level {
            0 => GovernanceLevel::Observation,
            1 => GovernanceLevel::Friction,
            2 => GovernanceLevel::Confirmation,
            3 => GovernanceLevel::Restriction,
            4 => GovernanceLevel::Supervision,
            _ => GovernanceLevel::Suspension,
        }
    }

    /// The level's name as a string slice.
    pub fn label(&self) -> (s: &'static str)
        ensures
            s@ == self.name(),
    {
        match self {
            GovernanceLevel::Observation => "Level 0: Observation",
            GovernanceLevel::Friction => "Level 1: Friction",
            GovernanceLevel::Confirmation => "Level 2: Confirmation",
            GovernanceLevel::Restriction => "Level 3: Restriction",
            GovernanceLevel::Supervision => "Level 4: Supervision",
            GovernanceLevel::Suspension => "Level 5: Suspension",
        }
    }

    /// The level's name, such as `Level 3: Restriction`.
    pub fn to_string(&self) -> (s: String)
        ensures
            s@ == self.name(),
    {
        String::from_str(self.label())
    }

    /// The delay put before an action at this level, in milliseconds:
    /// none while observing, none when suspended (the action is blocked).
    pub fn delay_ms(&self) -> (delay: Option<u64>)
        ensures
            delay == self.delay(),
    {
        match self {
            GovernanceLevel::Observation => None,
            GovernanceLevel::Friction => Some(500),
            GovernanceLevel::Confirmation => Some(1000),
            GovernanceLevel::Restriction => Some(2000),
            GovernanceLevel::Supervision => Some(5000),
            GovernanceLevel::Suspension => None,
        }
    }
}

/// What the controller decided for one risk score.
#[derive(Debug, Clone)]
pub struct SimplexDecision {
    /// The governance level that now applies.
    pub level: GovernanceLevel,
    /// The risk score the decision was made on.
    pub gamma: u64,
    /// The level went up.
    pub escalated: bool,
    /// The level went down.
    pub deescalated: bool,
    /// Delay to impose before the action, in milliseconds.
    pub delay_ms: Option<u64>,
    /// A human must confirm the action.
    pub requires_confirmation: bool,
    /// The action must not run.
    pub blocked: bool,
    /// Why the level is what it is.
    pub reason: String,
}

impl SimplexDecision {
    /// A decision never reports both an escalation and a de-escalation,
    /// and its delay, confirmation and blocking follow from its level.
    pub open spec fn wf(self) -> bool {
        &&& !(self.escalated && self.deescalated)
        &&& self.delay_ms == self.level.delay()
        &&& self.requires_confirmation == (self.level.rank() >= 2)
        &&& self.blocked == (self.level == GovernanceLevel::Suspension)
    }

    /// A copy of the decision.
    pub fn duplicate(&self) -> (copy: SimplexDecision)
        ensures
            copy == *self,
    {
        SimplexDecision {
            level: self.level,
            gamma: self.gamma,
            escalated: self.escalated,
            deescalated: self.deescalated,
            delay_ms: self.delay_ms,
            requires_confirmation: self.requires_confirmation,
            blocked: self.blocked,
            reason: self.reason.clone(),
        }
    }
}

/// The sentence that explains a decision.
pub open spec fn explanation(
    gamma: u64,
    previous: GovernanceLevel,
    current: GovernanceLevel,
    escalated: bool,
    deescalated: bool,
) -> Seq<char> {
    if escalated {
        "Gamma="@ + three_decimals(gamma as nat) + " exceeds threshold. Escalating from "@
            + previous.name() + " to "@ + current.name() + "."@
    } else if deescalated {
        "Gamma="@ + three_decimals(gamma as nat)
            + " sustained below threshold. De-escalating from "@ + previous.name() + " to "@
            + current.name() + "."@
    } else {
        "Gamma="@ + three_decimals(gamma as nat) + ". Maintaining "@ + current.name() + "."@
    }
}

/// Writes the sentence that explains a decision.
pub fn explain_decision(
    gamma: u64,
    previous: GovernanceLevel,
    current: GovernanceLevel,
    escalated: bool,
    deescalated: bool,
) -> (reason: String)
    ensures
        reason@ == explanation(gamma, previous, current, escalated, deescalated),
{
    let mut reason = String::from_str("Gamma=");
    push_three_decimals(&mut reason, gamma);
    if escalated {
        reason.append(" exceeds threshold. Escalating from ");
        reason.append(previous.label());
        reason.append(" to ");
    } else if deescalated {
        reason.append(" sustained below threshold. De-escalating from ");
        reason.append(previous.label());
        reason.append(" to ");
    } else {
        reason.append(". Maintaining ");
    }
    reason.append(current.label());
    reason.append(".");
    reason
}

/// The risk scores at which each level begins, and the margin by which the
/// score must fall below a level's threshold before the controller leaves
/// it downwards. All in millionths.
#[derive(Debug, Clone, Copy, PartialEq, Eq, Structural)]
pub struct GammaThresholds {
    pub friction_threshold: u64,
    pub confirmation_threshold: u64,
    pub restriction_threshold: u64,
    pub supervision_threshold: u64,
    pub suspension_threshold: u64,
    pub hysteresis: u64,
}

impl GammaThresholds {
    /// 0.3, 0.5, 0.7, 0.85 and 0.95, with a hysteresis of 0.1.
    pub open spec fn standard() -> GammaThresholds {
        GammaThresholds {
            friction_threshold: 300_000,
            confirmation_threshold: 500_000,
            restriction_threshold: 700_000,
            supervision_threshold: 850_000,
            suspension_threshold: 950_000,
            hysteresis: 100_000,
        }
    }

    /// The thresholds ascend strictly and none exceeds one.
    pub open spec fn wf(self) -> bool {
        &&& self.friction_threshold < self.confirmation_threshold
        &&& self.confirmation_threshold < self.restriction_threshold
        &&& self.restriction_threshold < self.supervision_threshold
        &&& self.supervision_threshold < self.suspension_threshold
        &&& self.suspension_threshold <= ONE
    }

    /// The score at which `level` begins; zero for `Observation`.
    pub open spec fn threshold_of(self, level: GovernanceLevel) -> u64 {
        match level {
            GovernanceLevel::Observation => 0,
            GovernanceLevel::Friction => self.friction_threshold,
            GovernanceLevel::Confirmation => self.confirmation_threshold,
            GovernanceLevel::Restriction => self.restriction_threshold,
            GovernanceLevel::Supervision => self.supervision_threshold,
            GovernanceLevel::Suspension => self.suspension_threshold,
        }
    }

    /// The highest level whose threshold `gamma` reaches.
    pub open spec fn level_for(self, gamma: u64) -> GovernanceLevel {
        if gamma >= self.suspension_threshold {
            GovernanceLevel::Suspension
        } else if gamma >= self.supervision_threshold {
            GovernanceLevel::Supervision
        } else if gamma >= self.restriction_threshold {
            GovernanceLevel::Restriction
        } else if gamma >= self.confirmation_threshold {
            GovernanceLevel::Confirmation
        } else if gamma >= self.friction_threshold {
            GovernanceLevel::Friction
        } else {
            GovernanceLevel::Observation
        }
    }

    /// Whether the thresholds are well formed.
    pub fn validate(&self) -> (ok: bool)
        ensures
            ok == self.wf(),
    {
        self.friction_threshold < self.confirmation_threshold && self.confirmation_threshold
            < self.restriction_threshold && self.restriction_threshold < self.supervision_threshold
            && self.supervision_threshold < self.suspension_threshold && self.suspension_threshold
            <= ONE
    }

    /// The score at which `level` begins.
    pub fn threshold_for(&self, level: GovernanceLevel) -> (t: u64)
        ensures
            t == self.threshold_of(level),
    {
        match level {
            GovernanceLevel::Observation => 0,
            GovernanceLevel::Friction => self.friction_threshold,
            GovernanceLevel::Confirmation => self.confirmation_threshold,
            GovernanceLevel::Restriction => self.restriction_threshold,
            GovernanceLevel::Supervision => self.supervision_threshold,
            GovernanceLevel::Suspension => self.suspension_threshold,
        }
    }
}

impl Default for GammaThresholds {
    fn default() -> (t: GammaThresholds)
        ensures
            t == GammaThresholds::standard(),
            t.wf(),
    {
        GammaThresholds {
            friction_threshold: 300_000,
            confirmation_threshold: 500_000,
            restriction_threshold: 700_000,
            supervision_threshold: 850_000,
            suspension_threshold: 950_000,
            hysteresis: 100_000,
        }
    }
}

/// The controller's state as the rules see it.
pub struct ControllerState {
    /// The current governance level.
    pub level: GovernanceLevel,
    /// The thresholds in force.
    pub thresholds: GammaThresholds,
    /// When the current level was entered, in milliseconds on the
    /// controller's monotonic clock.
    pub entered_ms: u64,
    /// How long the controller stays at a level before it may leave it
    /// downwards, in seconds.
    pub min_dwell_secs: u64,
}

impl ControllerState {
    /// The state of a controller that has just been made.
    pub open spec fn initial(thresholds: GammaThresholds) -> ControllerState {
        ControllerState {
            level: GovernanceLevel::Observation,
            thresholds,
            entered_ms: 0,
            min_dwell_secs: 60,
        }
    }

    /// The score below which the controller may leave its level downwards:
    /// the level's threshold less the hysteresis, and not below zero.
    pub open spec fn deescalation_threshold(self) -> int {
        let lowered = self.thresholds.threshold_of(self.level) - self.thresholds.hysteresis;
        if lowered < 0 {
            0
        } else {
            lowered
        }
    }

    /// The controller has been at its level for the minimum duration.
    pub open spec fn dwell_complete(self, now_ms: u64) -> bool {
        now_ms - self.entered_ms >= self.min_dwell_secs * 1000
    }

    /// `gamma` calls for a higher level than the current one.
    pub open spec fn escalates(self, gamma: u64) -> bool {
        self.thresholds.level_for(gamma).rank() > self.level.rank()
    }

    /// `gamma` calls for a lower level, lies below the de-escalation
    /// threshold, and the dwell time is over.
    pub open spec fn deescalates(self, gamma: u64, now_ms: u64) -> bool {
        &&& self.thresholds.level_for(gamma).rank() < self.level.rank()
        &&& gamma < self.deescalation_threshold()
        &&& self.dwell_complete(now_ms)
    }

    /// The level after a decision on `gamma` at `now_ms`.
    pub open spec fn next_level(self, gamma: u64, now_ms: u64) -> GovernanceLevel {
        if self.escalates(gamma) {
            self.thresholds.level_for(gamma)
        } else if self.deescalates(gamma, now_ms) {
            self.level.lowered()
        } else {
            self.level
        }
    }

    /// The state after a decision on `gamma` at `now_ms`: the level
    /// changes as the rules say, and a change of level restarts the dwell
    /// time.
    pub open spec fn step(self, gamma: u64, now_ms: u64) -> ControllerState {
        let level = self.next_level(gamma, now_ms);
        ControllerState {
            level,
            thresholds: self.thresholds,
            entered_ms: if level != self.level {
                now_ms
            } else {
                self.entered_ms
            },
            min_dwell_secs: self.min_dwell_secs,
        }
    }

    /// The state after the level is forced to `level` at `now_ms`.
    pub open spec fn forced(self, level: GovernanceLevel, now_ms: u64) -> ControllerState {
        ControllerState { level, entered_ms: now_ms, ..self }
    }

    /// `decision` is the record of a decision on `gamma` at `now_ms`.
    pub open spec fn decision_is(self, gamma: u64, now_ms: u64, decision: SimplexDecision) -> bool {
        let level = self.next_level(gamma, now_ms);
        let escalated = self.escalates(gamma);
        let deescalated = !escalated && self.deescalates(gamma, now_ms);
        &&& decision.level == level
        &&& decision.gamma == gamma
        &&& decision.escalated == escalated
        &&& decision.deescalated == deescalated
        &&& decision.delay_ms == level.delay()
        &&& decision.requires_confirmation == (level.rank() >= 2)
        &&& decision.blocked == (level == GovernanceLevel::Suspension)
        &&& decision.reason@ == explanation(gamma, self.level, level, escalated, deescalated)
    }
}

/// Watches the risk score and sets the governance level.
pub struct InterventionController {
    current_level: GovernanceLevel,
    thresholds: GammaThresholds,
    /// The monotonic clock reading that counts as time zero.
    clock: std::time::Instant,
    /// When the current level was entered, in milliseconds since `clock`.
    level_entry_ms: u64,
    min_elevated_duration_secs: u64,
}

impl View for InterventionController {
    type V = ControllerState;

    closed spec fn view(&self) -> ControllerState {
        ControllerState {
            level: self.current_level,
            thresholds: self.thresholds,
            entered_ms: self.level_entry_ms,
            min_dwell_secs: self.min_elevated_duration_secs,
        }
    }
}

impl InterventionController {
    /// A controller at `Observation` with the standard thresholds and a
    /// dwell time of 60 seconds. Its clock starts now.
    pub fn new() -> (controller: InterventionController)
        ensures
            controller@ == ControllerState::initial(GammaThresholds::standard()),
    {
        InterventionController {
            current_level: GovernanceLevel::Observation,
            thresholds: GammaThresholds::default(),
            clock: std::time::Instant::now(),
            level_entry_ms: 0,
            min_elevated_duration_secs: 60,
        }
    }

    /// A controller at `Observation` with the given thresholds.
    pub fn with_thresholds(thresholds: GammaThresholds) -> (controller: InterventionController)
        requires
            thresholds.wf(),
        ensures
            controller@ == ControllerState::initial(thresholds),
    {
        InterventionController {
            current_level: GovernanceLevel::Observation,
            thresholds,
            clock: std::time::Instant::now(),
            level_entry_ms: 0,
            min_elevated_duration_secs: 60,
        }
    }

    /// The highest level whose threshold `gamma` reaches.
    pub fn gamma_to_level(&self, gamma: u64) -> (level: GovernanceLevel)
        ensures
            level == self@.thresholds.level_for(gamma),
            level != GovernanceLevel::Observation ==> gamma >= self@.thresholds.threshold_of(level),
            forall|other: GovernanceLevel|
                other.rank() > level.rank() ==> gamma < #[trigger] self@.thresholds.threshold_of(
                    other,
                ),
    {
        if gamma >= self.thresholds.suspension_threshold {
            GovernanceLevel::Suspension
        } else if gamma >= self.thresholds.supervision_threshold {
            GovernanceLevel::Supervision
        } else if gamma >= self.thresholds.restriction_threshold {
            GovernanceLevel::Restriction
        } else if gamma >= self.thresholds.confirmation_threshold {
            GovernanceLevel::Confirmation
        } else if gamma >= self.thresholds.friction_threshold {
            GovernanceLevel::Friction
        } else {
            GovernanceLevel::Observation
        }
    }

    /// The score below which the controller may leave its level downwards.
    pub fn get_deescalation_threshold(&self) -> (threshold: u64)
        ensures
            threshold == self@.deescalation_threshold(),
    {
        let base: u64 = self.thresholds.threshold_for(self.current_level);
        if base >= self.thresholds.hysteresis {
            base - self.thresholds.hysteresis
        } else {
            0
        }
    }

    /// Decides on `gamma` with the monotonic clock at `now_ms` milliseconds
    /// since the controller was made.
    pub fn decide_at(&mut self, gamma: u64, now_ms: u64) -> (decision: SimplexDecision)
        ensures
            final(self)@ == old(self)@.step(gamma, now_ms),
            old(self)@.decision_is(gamma, now_ms, decision),
            decision.wf(),
    {
        let target = self.gamma_to_level(gamma);
        let previous = self.current_level;
        let escalated = target.as_u8() > previous.as_u8();
        let mut deescalated = false;
        if !escalated && target.as_u8() < previous.as_u8() {
            let threshold: u64 = self.get_deescalation_threshold();
            let dwelt = now_ms >= self.level_entry_ms && (now_ms - self.level_entry_ms) as u128
                >= (self.min_elevated_duration_secs as u128) * 1000;
            deescalated = gamma < threshold && dwelt;
        }
        let new_level = if escalated {
            target
        } else if deescalated {
            previous.deescalate()
        } else {
            previous
        };
        if new_level.as_u8() != previous.as_u8() {
            self.current_level = new_level;
            self.level_entry_ms = now_ms;
        }
        SimplexDecision {
            level: new_level,
            gamma,
            escalated,
            deescalated,
            delay_ms: new_level.delay_ms(),
            requires_confirmation: new_level.as_u8() >= 2,
            blocked: new_level.as_u8() == 5,
            reason: explain_decision(gamma, previous, new_level, escalated, deescalated),
        }
    }

    /// The present reading of the controller's clock, in milliseconds
    /// since the controller was made.
    pub fn clock_ms(&self) -> (now_ms: u64) {
        millis_since(&self.clock)
    }

    /// Decides on `gamma` at the present reading of the controller's
    /// clock. Whatever the clock says, a score that calls for a higher
    /// level takes the controller there.
    pub fn decide(&mut self, gamma: u64) -> (decision: SimplexDecision)
        ensures
            exists|now_ms: u64|
                final(self)@ == #[trigger] old(self)@.step(gamma, now_ms) && old(
                    self,
                )@.decision_is(gamma, now_ms, decision),
            decision.wf(),
            old(self)@.escalates(gamma) ==> decision.escalated && decision.level == old(
                self,
            )@.thresholds.level_for(gamma) && final(self)@.level == decision.level,
    {
        let now_ms: u64 = self.clock_ms();
        self.decide_at(gamma, now_ms)
    }

    /// The current governance level.
    pub fn current_level(&self) -> (level: GovernanceLevel)
        ensures
            level == self@.level,
    {
        self.current_level
    }

    /// Forces the level, as a manual override, with the clock at `now_ms`.
    /// The dwell time starts anew.
    pub fn set_level_at(&mut self, level: GovernanceLevel, now_ms: u64)
        ensures
            final(self)@ == old(self)@.forced(level, now_ms),
    {
        self.current_level = level;
        self.level_entry_ms = now_ms;
    }

    /// Forces the level at the present reading of the controller's clock.
    pub fn set_level(&mut self, level: GovernanceLevel)
        ensures
            exists|now_ms: u64| final(self)@ == #[trigger] old(self)@.forced(level, now_ms),
    {
        let now_ms: u64 = self.clock_ms();
        self.set_level_at(level, now_ms);
    }

    /// The thresholds in force.
    pub fn thresholds(&self) -> (t: &GammaThresholds)
        ensures
            *t == self@.thresholds,
    {
        &self.thresholds
    }
}

impl Default for InterventionController {
    fn default() -> (controller: InterventionController)
        ensures
            controller@ == ControllerState::initial(GammaThresholds::standard()),
    {
        InterventionController::new()
    }
}

/// Escalation is immediate: from any level, a score that calls for a
/// higher level takes the controller there at once, whatever the time and
/// however many levels lie between, and the decision says that it
/// escalated.
pub proof fn lemma_escalation_is_immediate(
    state: ControllerState,
    gamma: u64,
    now_ms: u64,
    decision: SimplexDecision,
)
    requires
        state.thresholds.level_for(gamma).rank() > state.level.rank(),
        state.decision_is(gamma, now_ms, decision),
    ensures
        state.step(gamma, now_ms).level == state.thresholds.level_for(gamma),
        state.step(gamma, now_ms).entered_ms == now_ms,
        decision.level == state.thresholds.level_for(gamma),
        decision.escalated,
        !decision.deescalated,
{
}

/// De-escalation waits for the dwell time: above `Observation`, a score
/// below the current level's threshold less the hysteresis leaves the
/// level where it is for as long as the dwell time has not passed.
pub proof fn lemma_deescalation_is_gated(
    state: ControllerState,
    gamma: u64,
    now_ms: u64,
    decision: SimplexDecision,
)
    requires
        state.thresholds.wf(),
        state.level != GovernanceLevel::Observation,
        gamma < state.thresholds.threshold_of(state.level) - state.thresholds.hysteresis,
        !state.dwell_complete(now_ms),
        state.decision_is(gamma, now_ms, decision),
    ensures
        state.step(gamma, now_ms) == state,
        decision.level == state.level,
        !decision.escalated,
        !decision.deescalated,
{
}

/// De-escalation goes one level at a time: once the dwell time has passed,
/// a score below the current level's threshold less the hysteresis takes
/// the controller down exactly one level, however low the score.
pub proof fn lemma_deescalation_is_one_step(
    state: ControllerState,
    gamma: u64,
    now_ms: u64,
    decision: SimplexDecision,
)
    requires
        state.thresholds.wf(),
        state.level != GovernanceLevel::Observation,
        gamma < state.thresholds.threshold_of(state.level) - state.thresholds.hysteresis,
        state.dwell_complete(now_ms),
        state.decision_is(gamma, now_ms, decision),
    ensures
        state.step(gamma, now_ms).level.rank() == state.level.rank() - 1,
        state.step(gamma, now_ms).entered_ms == now_ms,
        decision.deescalated,
        !decision.escalated,
{
}

/// Suspension blocks: a decision at `Suspension` blocks the action and
/// names no delay.
pub proof fn lemma_suspension_blocks(
    state: ControllerState,
    gamma: u64,
    now_ms: u64,
    decision: SimplexDecision,
)
    requires
        state.decision_is(gamma, now_ms, decision),
        decision.level == GovernanceLevel::Suspension,
    ensures
        decision.blocked,
        decision.delay_ms is None,
        decision.requires_confirmation,
{
}

} // verus!
