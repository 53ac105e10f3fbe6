//! The trajectory monitor: a composite risk score over recent behaviour.
//!
//! The monitor keeps a rolling window of the latest actions. From it, and
//! from the time since a human last looked in, it computes five scores
//! between zero and one and their weighted sum, Gamma:
//!
//! - entropy: the Shannon entropy of the action types in the window, in
//!   bits, over five bits;
//! - velocity: the actions of the last minute, over six hundred (ten a
//!   second);
//! - scope: the share of the window's actions whose type is not in the
//!   configured scope;
//! - reversibility: the share of the window's actions that cannot be undone;
//! - human latency: the time since the last human checkpoint, over eight
//!   hours.
//!
//! All scores are fixed-point numbers in millionths. The logarithms of the
//! entropy need floating point, which this library does without: the
//! monitor hands out the distribution of action types, and takes the
//! entropy of it as an argument, in millionths of a bit.

use vstd::prelude::*;
use vstd::hash_map::StringHashMap;
use vstd::hash_set::StringHashSet;
use std::collections::VecDeque;
use crate::score::{fraction, fraction_of, ONE};
use crate::time::{wall_clock_now, Timestamp};

verus! {

/// How many actions the rolling window holds.
pub const WINDOW_CAPACITY: usize = 1000;

/// The stretch of time over which velocity is counted, in nanoseconds.
pub const VELOCITY_WINDOW_NANOS: i128 = 60_000_000_000;

/// The number of actions within the velocity window that counts as full
/// velocity: ten a second for a minute.
pub const VELOCITY_FULL_SCALE: u64 = 600;

/// The entropy, in bits, that counts as full entropy.
pub const ENTROPY_FULL_SCALE_BITS: u64 = 5;

/// The time without a human checkpoint that counts as full latency: eight
/// hours, in seconds.
pub const HUMAN_LATENCY_FULL_SCALE_SECS: u64 = 28_800;

/// How far the weights' sum may be from one, exclusive: a thousandth.
pub const WEIGHT_TOLERANCE: u64 = 1000;

/// The weights of the five scores in the composite, in millionths.
#[derive(Debug, Clone, Copy, PartialEq, Eq, Structural)]
pub struct GammaWeights {
    /// Weight of the entropy of the action types.
    pub w_entropy: u64,
    /// Weight of the velocity of actions.
    pub w_velocity: u64,
    /// Weight of the departure from the configured scope.
    pub w_scope: u64,
    /// Weight of the share of irreversible actions.
    pub w_reversibility: u64,
    /// Weight of the time since the last human checkpoint.
    pub w_human_latency: u64,
}

impl GammaWeights {
    /// The sum of the five weights.
    pub open spec fn sum(self) -> int {
        self.w_entropy + self.w_velocity + self.w_scope + self.w_reversibility
            + self.w_human_latency
    }

    /// The weights sum to one, to within a thousandth.
    pub open spec fn is_valid(self) -> bool {
        ONE - WEIGHT_TOLERANCE < self.sum() < ONE + WEIGHT_TOLERANCE
    }

    /// 0.15 for entropy, 0.20 for velocity, 0.20 for scope, 0.25 for
    /// reversibility and 0.20 for human latency.
    pub open spec fn standard() -> GammaWeights {
        GammaWeights {
            w_entropy: 150_000,
            w_velocity: 200_000,
            w_scope: 200_000,
            w_reversibility: 250_000,
            w_human_latency: 200_000,
        }
    }

    /// Whether the weights sum to one, to within a thousandth.
    pub fn validate(&self) -> (ok: bool)
        ensures
            ok == self.is_valid(),
    {
        let sum: u128 = self.w_entropy as u128 + self.w_velocity as u128 + self.w_scope as u128
            + self.w_reversibility as u128 + self.w_human_latency as u128;
        let low: u128 = (ONE - WEIGHT_TOLERANCE) as u128;
        let high: u128 = (ONE + WEIGHT_TOLERANCE) as u128;
        low < sum && sum < high
    }
}

impl Default for GammaWeights {
    fn default() -> (weights: GammaWeights)
        ensures
            weights == GammaWeights::standard(),
            weights.is_valid(),
            weights.sum() == ONE,
    {
        GammaWeights {
            w_entropy: 150_000,
            w_velocity: 200_000,
            w_scope: 200_000,
            w_reversibility: 250_000,
            w_human_latency: 200_000,
        }
    }
}

/// The composite risk score with the five scores it is made of.
#[derive(Debug, Clone, Copy)]
pub struct GammaScore {
    /// The weighted sum of the five scores.
    pub composite: u64,
    pub entropy: u64,
    pub velocity: u64,
    pub scope: u64,
    pub reversibility: u64,
    pub human_latency: u64,
    /// When the score was computed.
    pub computed_at: Timestamp,
}

impl GammaScore {
    /// The composite and every score lie between zero and one.
    pub open spec fn wf(self) -> bool {
        &&& self.composite <= ONE
        &&& self.entropy <= ONE
        &&& self.velocity <= ONE
        &&& self.scope <= ONE
        &&& self.reversibility <= ONE
        &&& self.human_latency <= ONE
    }
}

/// One action in the window, as the rules see it.
pub struct ActionView {
    /// What kind of action it was, such as `read_file`.
    pub action_type: Seq<char>,
    /// Whether the action can be undone.
    pub reversible: bool,
    /// When the action was recorded.
    pub timestamp: Timestamp,
}

/// One action in the window.
struct ActionRecord {
    action_type: String,
    reversible: bool,
    timestamp: Timestamp,
}

impl View for ActionRecord {
    type V = ActionView;

    closed spec fn view(&self) -> ActionView {
        ActionView {
            action_type: self.action_type@,
            reversible: self.reversible,
            timestamp: self.timestamp,
        }
    }
}

/// The action cannot be undone.
pub open spec fn irreversible() -> spec_fn(ActionView) -> bool {
    |a: ActionView| !a.reversible
}

/// The action's type is not in `scope`.
pub open spec fn outside(scope: Set<Seq<char>>) -> spec_fn(ActionView) -> bool {
    |a: ActionView| !scope.contains(a.action_type)
}

/// The action was recorded less than a minute before `now`.
pub open spec fn recent(now: Timestamp) -> spec_fn(ActionView) -> bool {
    |a: ActionView| a.timestamp.total_nanos() > now.total_nanos() - VELOCITY_WINDOW_NANOS
}

/// The action is of the given type.
pub open spec fn of_type(action_type: Seq<char>) -> spec_fn(ActionView) -> bool {
    |a: ActionView| a.action_type == action_type
}

/// How many of the first `n` actions of `window` satisfy `pred`.
pub open spec fn count_matching(
    window: Seq<ActionView>,
    n: int,
    pred: spec_fn(ActionView) -> bool,
) -> nat
    decreases n,
{
    if n <= 0 {
        0
    } else {
        count_matching(window, n - 1, pred) + if pred(window[n - 1]) {
            1nat
        } else {
            0nat
        }
    }
}

/// How many actions of `window` satisfy `pred`.
pub open spec fn count_all(window: Seq<ActionView>, pred: spec_fn(ActionView) -> bool) -> nat {
    count_matching(window, window.len() as int, pred)
}

/// No earlier action of `window` has the type of action `i`.
pub open spec fn is_first_of_its_type(window: Seq<ActionView>, i: int) -> bool {
    forall|j: int| 0 <= j < i ==> (#[trigger] window[j]).action_type != window[i].action_type
}

/// For each action type among the first `n` actions of `window`, in the
/// order in which the types first occur, the number of actions of that type
/// in the whole window.
pub open spec fn type_counts(window: Seq<ActionView>, n: int) -> Seq<u64>
    decreases n,
{
    if n <= 0 {
        Seq::empty()
    } else {
        let rest = type_counts(window, n - 1);
        if is_first_of_its_type(window, n - 1) {
            rest.push(count_all(window, of_type(window[n - 1].action_type)) as u64)
        } else {
            rest
        }
    }
}

/// The types named by the first `n` of `actions`.
pub open spec fn names(actions: Seq<&str>, n: int) -> Set<Seq<char>>
    decreases n,
{
    if n <= 0 {
        Set::empty()
    } else {
        names(actions, n - 1).insert(actions[n - 1]@)
    }
}

/// A lifetime count one higher, held at the largest `u64`.
pub open spec fn bumped(count: u64) -> u64 {
    if count < u64::MAX {
        (count + 1) as u64
    } else {
        count
    }
}

/// The weighted sum of five scores, over one, rounded down and capped at
/// one.
pub open spec fn weighted(
    weights: GammaWeights,
    entropy: nat,
    velocity: nat,
    scope: nat,
    reversibility: nat,
    human_latency: nat,
) -> nat {
    let sum = weights.w_entropy * entropy + weights.w_velocity * velocity + weights.w_scope * scope
        + weights.w_reversibility * reversibility + weights.w_human_latency * human_latency;
    if sum / ONE as int >= ONE {
        ONE as nat
    } else {
        (sum / ONE as int) as nat
    }
}

/// The monitor's state as the rules see it.
pub struct MonitorState {
    /// The weights of the composite.
    pub weights: GammaWeights,
    /// The rolling window, oldest action first.
    pub window: Seq<ActionView>,
    /// How many actions the window holds at most.
    pub capacity: nat,
    /// When a human last looked in.
    pub last_checkpoint: Timestamp,
    /// How often each action type was ever recorded.
    pub baseline: Map<Seq<char>, u64>,
    /// The action types of the task as it was set.
    pub scope: Set<Seq<char>>,
}

impl MonitorState {
    /// The state of a monitor made at `now`.
    pub open spec fn initial(weights: GammaWeights, now: Timestamp) -> MonitorState {
        MonitorState {
            weights,
            window: Seq::empty(),
            capacity: WINDOW_CAPACITY as nat,
            last_checkpoint: now,
            baseline: Map::empty(),
            scope: Set::empty(),
        }
    }

    /// The weights are valid and the window is within its capacity of a
    /// thousand actions.
    pub open spec fn wf(self) -> bool {
        &&& self.weights.is_valid()
        &&& self.capacity == WINDOW_CAPACITY
        &&& self.window.len() <= self.capacity
    }

    /// How often `action_type` was ever recorded.
    pub open spec fn lifetime_count(self, action_type: Seq<char>) -> u64 {
        if self.baseline.contains_key(action_type) {
            self.baseline[action_type]
        } else {
            0
        }
    }

    /// The state after an action is recorded at `now`: the action joins
    /// the window, the oldest actions leave it until it is within its
    /// capacity, and the type's lifetime count goes up by one.
    pub open spec fn recorded(self, action_type: Seq<char>, reversible: bool, now: Timestamp)
        -> MonitorState {
        let longer = self.window.push(ActionView { action_type, reversible, timestamp: now });
        MonitorState {
            window: if longer.len() > self.capacity {
                longer.subrange(longer.len() - self.capacity, longer.len() as int)
            } else {
                longer
            },
            baseline: self.baseline.insert(action_type, bumped(self.lifetime_count(action_type))),
            ..self
        }
    }

    /// The state after a human checkpoint at `now`.
    pub open spec fn checkpointed(self, now: Timestamp) -> MonitorState {
        MonitorState { last_checkpoint: now, ..self }
    }

    /// The state after the scope is set.
    pub open spec fn scoped(self, scope: Set<Seq<char>>) -> MonitorState {
        MonitorState { scope, ..self }
    }

    /// The entropy score for an entropy of `microbits` millionths of a
    /// bit: zero for an empty window, else the entropy over five bits.
    pub open spec fn entropy_score(self, microbits: u64) -> nat {
        if self.window.len() == 0 {
            0
        } else if microbits / ENTROPY_FULL_SCALE_BITS >= ONE {
            ONE as nat
        } else {
            (microbits / ENTROPY_FULL_SCALE_BITS) as nat
        }
    }

    /// The velocity score at `now`: zero with fewer than two actions in
    /// the window, else the actions of the last minute over six hundred.
    pub open spec fn velocity_score(self, now: Timestamp) -> nat {
        if self.window.len() < 2 {
            0
        } else {
            fraction(count_all(self.window, recent(now)), VELOCITY_FULL_SCALE as nat)
        }
    }

    /// The scope score: zero with no scope set or an empty window, else
    /// the share of the window's actions whose type is outside the scope.
    pub open spec fn scope_score(self) -> nat {
        if self.scope.is_empty() || self.window.len() == 0 {
            0
        } else {
            fraction(count_all(self.window, outside(self.scope)), self.window.len())
        }
    }

    /// The reversibility score: zero for an empty window, else the share
    /// of the window's actions that cannot be undone.
    pub open spec fn reversibility_score(self) -> nat {
        if self.window.len() == 0 {
            0
        } else {
            fraction(count_all(self.window, irreversible()), self.window.len())
        }
    }

    /// The human latency score at `now`: the whole seconds since the last
    /// checkpoint over eight hours.
    pub open spec fn human_latency_score(self, now: Timestamp) -> nat {
        fraction(
            now.spec_seconds_since(self.last_checkpoint) as nat,
            HUMAN_LATENCY_FULL_SCALE_SECS as nat,
        )
    }

    /// The composite score at `now`, for the given entropy.
    pub open spec fn composite(self, now: Timestamp, microbits: u64) -> nat {
        weighted(
            self.weights,
            self.entropy_score(microbits),
            self.velocity_score(now),
            self.scope_score(),
            self.reversibility_score(),
            self.human_latency_score(now),
        )
    }

    /// `score` is the score at `now`, for the given entropy.
    pub open spec fn score_is(self, now: Timestamp, microbits: u64, score: GammaScore) -> bool {
        &&& score.composite == self.composite(now, microbits)
        &&& score.entropy == self.entropy_score(microbits)
        &&& score.velocity == self.velocity_score(now)
        &&& score.scope == self.scope_score()
        &&& score.reversibility == self.reversibility_score()
        &&& score.human_latency == self.human_latency_score(now)
        &&& score.computed_at == now
    }
}

/// The views of the records, in order.
spec fn views(records: Seq<ActionRecord>) -> Seq<ActionView> {
    Seq::new(records.len(), |i: int| records[i]@)
}

/// Watches what the agent does and computes the composite risk score.
pub struct TrajectoryMonitor {
    weights: GammaWeights,
    action_history: VecDeque<ActionRecord>,
    history_size: usize,
    last_human_checkpoint: Timestamp,
    baseline_actions: StringHashMap<u64>,
    original_scope: StringHashSet,
}

impl View for TrajectoryMonitor {
    type V = MonitorState;

    closed spec fn view(&self) -> MonitorState {
        MonitorState {
            weights: self.weights,
            window: views(self.action_history@),
            capacity: self.history_size as nat,
            last_checkpoint: self.last_human_checkpoint,
            baseline: self.baseline_actions@,
            scope: self.original_scope@,
        }
    }
}

impl TrajectoryMonitor {
    /// A monitor with an empty window and no scope, whose last human
    /// checkpoint is `now`.
    pub fn new_at(weights: GammaWeights, now: Timestamp) -> (monitor: TrajectoryMonitor)
        requires
            weights.is_valid(),
        ensures
            monitor@ == MonitorState::initial(weights, now),
            monitor@.wf(),
    {
        let monitor = TrajectoryMonitor {
            weights,
            action_history: VecDeque::with_capacity(WINDOW_CAPACITY),
            history_size: WINDOW_CAPACITY,
            last_human_checkpoint: now,
            baseline_actions: StringHashMap::new(),
            original_scope: StringHashSet::new(),
        };
        assert(monitor@.window =~= Seq::<ActionView>::empty());
        monitor
    }

    /// A monitor made now, by the wall clock.
    pub fn new(weights: GammaWeights) -> (monitor: TrajectoryMonitor)
        requires
            weights.is_valid(),
        ensures
            exists|now: Timestamp| monitor@ == #[trigger] MonitorState::initial(weights, now),
            monitor@.wf(),
    {
        TrajectoryMonitor::new_at(weights, wall_clock_now())
    }

    /// Records an action at `now`.
    pub fn record_action_at(&mut self, action_type: &str, reversible: bool, now: Timestamp)
        ensures
            final(self)@ == old(self)@.recorded(action_type@, reversible, now),
            old(self)@.wf() ==> final(self)@.wf(),
    {
        let record = ActionRecord { action_type: action_type.to_owned(), reversible, timestamp: now };
        let ghost longer = old(self)@.window.push(record@);
        self.action_history.push_back(record);
        assert(views(self.action_history@) =~= longer);
        let ghost mut dropped: int = 0;
        while self.action_history.len() > self.history_size
            invariant
                0 <= dropped <= longer.len(),
                self.action_history@.len() == longer.len() - dropped,
                views(self.action_history@) == longer.subrange(dropped, longer.len() as int),
                dropped == 0 || self.action_history@.len() >= self.history_size,
                self.history_size == old(self).history_size,
                self.weights == old(self).weights,
                self.last_human_checkpoint == old(self).last_human_checkpoint,
                self.baseline_actions@ == old(self).baseline_actions@,
                self.original_scope@ == old(self).original_scope@,
            decreases self.action_history@.len(),
        {
            let ghost before = self.action_history@;
            self.action_history.pop_front();
            proof {
                assert(views(self.action_history@) =~= views(before).subrange(
                    1,
                    before.len() as int,
                ));
                assert(views(before).subrange(1, before.len() as int) =~= longer.subrange(
                    dropped + 1,
                    longer.len() as int,
                ));
                dropped = dropped + 1;
            }
        }
        proof {
            if longer.len() > self.history_size {
                assert(dropped == longer.len() - self.history_size);
            } else {
                assert(dropped == 0);
                assert(longer.subrange(0, longer.len() as int) =~= longer);
            }
        }
        let count: u64 = match self.baseline_actions.get(action_type) {
            Some(count) => *count,
            None => 0,
        };
        let next: u64 = if count < u64::MAX {
            count + 1
        } else {
            count
        };
        self.baseline_actions.insert(action_type.to_owned(), next);
    }

    /// Records an action now, by the wall clock.
    pub fn record_action(&mut self, action_type: &str, reversible: bool)
        ensures
            exists|now: Timestamp|
                final(self)@ == #[trigger] old(self)@.recorded(action_type@, reversible, now),
            old(self)@.wf() ==> final(self)@.wf(),
    {
        let now = wall_clock_now();
        self.record_action_at(action_type, reversible, now);
    }

    /// Records that a human looked in at `now`.
    pub fn human_checkpoint_at(&mut self, now: Timestamp)
        ensures
            final(self)@ == old(self)@.checkpointed(now),
            old(self)@.wf() ==> final(self)@.wf(),
    {
        self.last_human_checkpoint = now;
    }

    /// Records that a human looked in now, by the wall clock.
    pub fn human_checkpoint(&mut self)
        ensures
            exists|now: Timestamp| final(self)@ == #[trigger] old(self)@.checkpointed(now),
            old(self)@.wf() ==> final(self)@.wf(),
    {
        let now = wall_clock_now();
        self.human_checkpoint_at(now);
    }

    /// Sets the scope of the task: the action types that belong to it.
    pub fn set_original_scope(&mut self, actions: &[&str])
        ensures
            final(self)@ == old(self)@.scoped(names(actions@, actions@.len() as int)),
            old(self)@.wf() ==> final(self)@.wf(),
    {
        let mut scope = StringHashSet::new();
        let mut i: usize = 0;
        while i < actions.len()
            invariant
                i <= actions@.len(),
                scope@ == names(actions@, i as int),
            decreases actions@.len() - i,
        {
            scope.insert(actions[i].to_owned());
            i = i + 1;
        }
        self.original_scope = scope;
    }

    /// The number of actions in the window that cannot be undone.
    fn count_irreversible(&self) -> (count: usize)
        ensures
            count == count_all(self@.window, irreversible()),
            count <= self@.window.len(),
    {
        let mut count: usize = 0;
        let mut i: usize = 0;
        while i < self.action_history.len()
            invariant
                i <= self.action_history@.len(),
                count <= i,
                count == count_matching(self@.window, i as int, irreversible()),
            decreases self.action_history@.len() - i,
        {
            if !self.action_history[i].reversible {
                count = count + 1;
            }
            i = i + 1;
        }
        count
    }

    /// The number of actions in the window whose type is outside the
    /// scope.
    fn count_out_of_scope(&self) -> (count: usize)
        ensures
            count == count_all(self@.window, outside(self@.scope)),
            count <= self@.window.len(),
    {
        let mut count: usize = 0;
        let mut i: usize = 0;
        while i < self.action_history.len()
            invariant
                i <= self.action_history@.len(),
                count <= i,
                count == count_matching(self@.window, i as int, outside(self@.scope)),
            decreases self.action_history@.len() - i,
        {
            if !self.original_scope.contains(self.action_history[i].action_type.as_str()) {
                count = count + 1;
            }
            i = i + 1;
        }
        count
    }

    /// The number of actions in the window recorded less than a minute
    /// before `now`.
    fn count_recent(&self, now: &Timestamp) -> (count: usize)
        ensures
            count == count_all(self@.window, recent(*now)),
            count <= self@.window.len(),
    {
        let cutoff: i128 = now.as_nanos() - VELOCITY_WINDOW_NANOS;
        let mut count: usize = 0;
        let mut i: usize = 0;
        while i < self.action_history.len()
            invariant
                i <= self.action_history@.len(),
                count <= i,
                cutoff == now.total_nanos() - VELOCITY_WINDOW_NANOS,
                count == count_matching(self@.window, i as int, recent(*now)),
            decreases self.action_history@.len() - i,
        {
            if self.action_history[i].timestamp.as_nanos() > cutoff {
                count = count + 1;
            }
            i = i + 1;
        }
        count
    }

    /// The number of actions in the window of the type of action `at`.
    fn count_of_type(&self, at: usize) -> (count: usize)
        requires
            at < self@.window.len(),
        ensures
            count == count_all(self@.window, of_type(self@.window[at as int].action_type)),
            count <= self@.window.len(),
    {
        let mut count: usize = 0;
        let mut i: usize = 0;
        while i < self.action_history.len()
            invariant
                i <= self.action_history@.len(),
                at < self.action_history@.len(),
                count <= i,
                count == count_matching(
                    self@.window,
                    i as int,
                    of_type(self@.window[at as int].action_type),
                ),
            decreases self.action_history@.len() - i,
        {
            if self.action_history[i].action_type == self.action_history[at].action_type {
                count = count + 1;
            }
            i = i + 1;
        }
        count
    }

    /// Whether no earlier action in the window has the type of action
    /// `at`.
    fn first_of_its_type(&self, at: usize) -> (first: bool)
        requires
            at < self@.window.len(),
        ensures
            first == is_first_of_its_type(self@.window, at as int),
    {
        let mut j: usize = 0;
        while j < at
            invariant
                j <= at,
                at < self.action_history@.len(),
                forall|k: int|
                    0 <= k < j ==> (#[trigger] self@.window[k]).action_type
                        != self@.window[at as int].action_type,
            decreases at - j,
        {
            if self.action_history[j].action_type == self.action_history[at].action_type {
                assert(self@.window[j as int].action_type == self@.window[at as int].action_type);
                return false;
            }
            j = j + 1;
        }
        true
    }

    /// The distribution of action types in the window: for each type, in
    /// the order in which the types first occur, the number of actions of
    /// that type. The entropy of this distribution is what
    /// [`TrajectoryMonitor::compute_gamma_at`] takes.
    pub fn action_type_counts(&self) -> (counts: Vec<u64>)
        ensures
            counts@ == type_counts(self@.window, self@.window.len() as int),
    {
        let mut counts: Vec<u64> = Vec::new();
        let mut i: usize = 0;
        while i < self.action_history.len()
            invariant
                i <= self.action_history@.len(),
                counts@ == type_counts(self@.window, i as int),
            decreases self.action_history@.len() - i,
        {
            if self.first_of_its_type(i) {
                let count: usize = self.count_of_type(i);
                counts.push(count as u64);
            }
            i = i + 1;
        }
        counts
    }

    /// The entropy score for an entropy of `microbits` millionths of a
    /// bit.
    pub fn compute_entropy(&self, microbits: u64) -> (score: u64)
        ensures
            score == self@.entropy_score(microbits),
            score <= ONE,
    {
        if self.action_history.len() == 0 {
            0
        } else if microbits / ENTROPY_FULL_SCALE_BITS >= ONE {
            ONE
        } else {
            microbits / ENTROPY_FULL_SCALE_BITS
        }
    }

    /// The velocity score at `now`.
    pub fn compute_velocity(&self, now: &Timestamp) -> (score: u64)
        ensures
            score == self@.velocity_score(*now),
            score <= ONE,
    {
        if self.action_history.len() < 2 {
            return 0;
        }
        let recent_count: usize = self.count_recent(now);
        fraction_of(recent_count as u64, VELOCITY_FULL_SCALE)
    }

    /// The scope score.
    pub fn compute_scope_expansion(&self) -> (score: u64)
        ensures
            score == self@.scope_score(),
            score <= ONE,
    {
        if self.original_scope.is_empty() || self.action_history.len() == 0 {
            return 0;
        }
        let out_of_scope: usize = self.count_out_of_scope();
        fraction_of(out_of_scope as u64, self.action_history.len() as u64)
    }

    /// The reversibility score.
    pub fn compute_reversibility(&self) -> (score: u64)
        ensures
            score == self@.reversibility_score(),
            score <= ONE,
    {
        if self.action_history.len() == 0 {
            return 0;
        }
        let irreversible_count: usize = self.count_irreversible();
        fraction_of(irreversible_count as u64, self.action_history.len() as u64)
    }

    /// The human latency score at `now`.
    pub fn compute_human_latency(&self, now: &Timestamp) -> (score: u64)
        ensures
            score == self@.human_latency_score(*now),
            score <= ONE,
    {
        let secs: u128 = now.seconds_since(&self.last_human_checkpoint);
        if secs >= HUMAN_LATENCY_FULL_SCALE_SECS as u128 {
            ONE
        } else {
            fraction_of(secs as u64, HUMAN_LATENCY_FULL_SCALE_SECS)
        }
    }

    /// The composite risk score at `now`, with its five parts. The entropy
    /// of the window's action types comes in as `microbits`, in millionths
    /// of a bit. The composite and every part lie between zero and one.
    pub fn compute_gamma_at(&self, now: Timestamp, microbits: u64) -> (score: GammaScore)
        ensures
            self@.score_is(now, microbits, score),
            score.wf(),
    {
        let entropy: u64 = self.compute_entropy(microbits);
        let velocity: u64 = self.compute_velocity(&now);
        let scope: u64 = self.compute_scope_expansion();
        let reversibility: u64 = self.compute_reversibility();
        let human_latency: u64 = self.compute_human_latency(&now);
        let composite: u64 = weighted_sum(
            &self.weights,
            entropy,
            velocity,
            scope,
            reversibility,
            human_latency,
        );
        GammaScore {
            composite,
            entropy,
            velocity,
            scope,
            reversibility,
            human_latency,
            computed_at: now,
        }
    }

    /// The composite risk score now, by the wall clock. Whatever the clock
    /// says, the composite and every part lie between zero and one, and
    /// the parts that do not depend on time are what the window gives.
    pub fn compute_gamma(&self, microbits: u64) -> (score: GammaScore)
        ensures
            exists|now: Timestamp| #[trigger] self@.score_is(now, microbits, score),
            score.wf(),
            score.entropy == self@.entropy_score(microbits),
            score.scope == self@.scope_score(),
            score.reversibility == self@.reversibility_score(),
    {
        let now = wall_clock_now();
        self.compute_gamma_at(now, microbits)
    }

    /// The number of actions in the window.
    pub fn action_count(&self) -> (n: usize)
        ensures
            n == self@.window.len(),
    {
        self.action_history.len()
    }

    /// The weights of the composite.
    pub fn weights(&self) -> (weights: &GammaWeights)
        ensures
            *weights == self@.weights,
    {
        &self.weights
    }

    /// How often `action_type` was ever recorded.
    pub fn baseline_count(&self, action_type: &str) -> (count: u64)
        ensures
            count == self@.lifetime_count(action_type@),
    {
        match self.baseline_actions.get(action_type) {
            Some(count) => *count,
            None => 0,
        }
    }
}

/// Computes the weighted sum of five scores.
pub fn weighted_sum(
    weights: &GammaWeights,
    entropy: u64,
    velocity: u64,
    scope: u64,
    reversibility: u64,
    human_latency: u64,
) -> (composite: u64)
    requires
        entropy <= ONE,
        velocity <= ONE,
        scope <= ONE,
        reversibility <= ONE,
        human_latency <= ONE,
    ensures
        composite == weighted(
            *weights,
            entropy as nat,
            velocity as nat,
            scope as nat,
            reversibility as nat,
            human_latency as nat,
        ),
        composite <= ONE,
{
    let a: u128 = term(weights.w_entropy, entropy);
    let b: u128 = term(weights.w_velocity, velocity);
    let c: u128 = term(weights.w_scope, scope);
    let d: u128 = term(weights.w_reversibility, reversibility);
    let e: u128 = term(weights.w_human_latency, human_latency);
    let sum: u128 = a + b + c + d + e;
    let scaled: u128 = sum / (ONE as u128);
    if scaled >= ONE as u128 {
        ONE
    } else {
        scaled as u64
    }
}

/// One term of the weighted sum.
fn term(weight: u64, score: u64) -> (product: u128)
    requires
        score <= ONE,
    ensures
        product == weight * score,
        product <= u64::MAX * ONE,
{
    assert(weight * score <= u64::MAX * ONE) by (nonlinear_arith)
        requires
            weight <= u64::MAX,
            score <= ONE,
    ;
    (weight as u128) * (score as u128)
}

/// The count of matching actions is at most the number looked at; it is
/// that number where all match and zero where none does.
pub proof fn lemma_count_bounds(window: Seq<ActionView>, n: int, pred: spec_fn(ActionView) -> bool)
    requires
        0 <= n <= window.len(),
    ensures
        count_matching(window, n, pred) <= n,
        (forall|i: int| 0 <= i < n ==> pred(#[trigger] window[i])) ==> count_matching(
            window,
            n,
            pred,
        ) == n,
        (forall|i: int| 0 <= i < n ==> !pred(#[trigger] window[i])) ==> count_matching(
            window,
            n,
            pred,
        ) == 0,
        (exists|i: int| 0 <= i < n && !pred(#[trigger] window[i])) ==> count_matching(
            window,
            n,
            pred,
        ) < n,
    decreases n,
{
    if n > 0 {
        lemma_count_bounds(window, n - 1, pred);
        if exists|i: int| 0 <= i < n && !pred(#[trigger] window[i]) {
            let i = choose|i: int| 0 <= i < n && !pred(#[trigger] window[i]);
            if i < n - 1 {
                assert(0 <= i < n - 1 && !pred(window[i]));
            }
        }
    }
}

/// Counting over the first `n` actions does not look at later ones.
pub proof fn lemma_count_prefix(
    a: Seq<ActionView>,
    b: Seq<ActionView>,
    n: int,
    pred: spec_fn(ActionView) -> bool,
)
    requires
        0 <= n <= a.len(),
        n <= b.len(),
        forall|i: int| 0 <= i < n ==> a[i] == b[i],
    ensures
        count_matching(a, n, pred) == count_matching(b, n, pred),
    decreases n,
{
    if n > 0 {
        lemma_count_prefix(a, b, n - 1, pred);
    }
}

/// Counting without the oldest action: the count over the rest is the
/// count over all, less one if the oldest matches.
pub proof fn lemma_count_without_oldest(
    window: Seq<ActionView>,
    n: int,
    pred: spec_fn(ActionView) -> bool,
)
    requires
        1 <= n <= window.len(),
    ensures
        count_matching(window.subrange(1, window.len() as int), n - 1, pred) + (if pred(
            window[0],
        ) {
            1nat
        } else {
            0nat
        }) == count_matching(window, n, pred),
    decreases n,
{
    let rest = window.subrange(1, window.len() as int);
    if n > 1 {
        lemma_count_without_oldest(window, n - 1, pred);
        assert(rest[n - 2] == window[n - 1]);
    } else {
        assert(count_matching(window, 0, pred) == 0);
        assert(count_matching(rest, 0, pred) == 0);
    }
}

/// One more matching action out of one more action is a strictly larger
/// share, as long as not all matched before and the shares are taken of
/// fewer than a thousand actions.
pub proof fn lemma_fraction_grows(k: nat, n: nat)
    requires
        k < n,
        n < 1000,
    ensures
        fraction(k + 1, n + 1) > fraction(k, n),
{
    let a = (k * 1_000_000) / n;
    let b = ((k + 1) * 1_000_000) / (n + 1);
    assert(a * n <= k * 1_000_000 && a < 1_000_000 && (1_000_000 - a) * n >= 1_000_000)
        by (nonlinear_arith)
        requires
            k < n,
            0 < n < 1000,
            a == (k * 1_000_000) / n,
    ;
    assert(b >= a + 1 && b <= 1_000_000) by (nonlinear_arith)
        requires
            k < n,
            0 < n < 1000,
            a * n <= k * 1_000_000,
            (1_000_000 - a) * n >= 1_000_000,
            b == ((k + 1) * 1_000_000) / (n + 1),
    ;
}

/// The standard weights sum to exactly one.
pub proof fn lemma_standard_weights_sum_to_one()
    ensures
        GammaWeights::standard().sum() == ONE,
        GammaWeights::standard().is_valid(),
{
}

/// Gamma is bounded: in every state, at every time and for every entropy,
/// the composite and each of the five scores lie between zero and one.
pub proof fn lemma_gamma_bounded(state: MonitorState, now: Timestamp, microbits: u64)
    ensures
        state.composite(now, microbits) <= ONE,
        state.entropy_score(microbits) <= ONE,
        state.velocity_score(now) <= ONE,
        state.scope_score() <= ONE,
        state.reversibility_score() <= ONE,
        state.human_latency_score(now) <= ONE,
{
}

/// Reversibility at its extremes: if no action in a window that is not
/// empty can be undone, the reversibility score is one; if every action can
/// be undone, it is zero.
pub proof fn lemma_reversibility_extremes(state: MonitorState)
    ensures
        state.window.len() > 0 && (forall|i: int|
            0 <= i < state.window.len() ==> !(#[trigger] state.window[i]).reversible)
            ==> state.reversibility_score() == ONE,
        (forall|i: int| 0 <= i < state.window.len() ==> (#[trigger] state.window[i]).reversible)
            ==> state.reversibility_score() == 0,
{
    let n = state.window.len();
    lemma_count_bounds(state.window, n as int, irreversible());
    if n > 0 {
        if forall|i: int| 0 <= i < n ==> !(#[trigger] state.window[i]).reversible {
            assert forall|i: int| 0 <= i < n implies irreversible()(#[trigger] state.window[i]) by {
                assert(!state.window[i].reversible);
            }
            assert(count_all(state.window, irreversible()) == n);
            assert(n * 1_000_000 / n == 1_000_000) by (nonlinear_arith)
                requires
                    n > 0,
            ;
        }
        if forall|i: int| 0 <= i < n ==> (#[trigger] state.window[i]).reversible {
            assert forall|i: int| 0 <= i < n implies !irreversible()(#[trigger] state.window[i]) by {
                assert(state.window[i].reversible);
            }
            assert(count_all(state.window, irreversible()) == 0);
            assert(0 * 1_000_000 / n == 0) by (nonlinear_arith)
                requires
                    n > 0,
            ;
        }
    }
}

/// A checkpoint resets the latency: right after a human checkpoint, and
/// for the rest of that second, the human latency score is zero.
pub proof fn lemma_checkpoint_resets_latency(state: MonitorState, at: Timestamp, now: Timestamp)
    requires
        now.total_nanos() - at.total_nanos() < 1_000_000_000,
    ensures
        state.checkpointed(at).human_latency_score(now) == 0,
{
}

/// Leaving the scope shows: recording an action whose type is outside the
/// scope strictly raises the scope score, provided that the window holds an
/// action within the scope, and that the action which leaves a full window
/// to make room, if any, is within the scope too.
pub proof fn lemma_scope_expansion(
    state: MonitorState,
    action_type: Seq<char>,
    reversible: bool,
    now: Timestamp,
)
    requires
        state.wf(),
        !state.scope.contains(action_type),
        exists|i: int|
            0 <= i < state.window.len() && state.scope.contains(
                (#[trigger] state.window[i]).action_type,
            ),
        state.window.len() < state.capacity || state.scope.contains(state.window[0].action_type),
    ensures
        state.recorded(action_type, reversible, now).scope_score() > state.scope_score(),
{
    let pred = outside(state.scope);
    let window = state.window;
    let n = window.len();
    let added = ActionView { action_type, reversible, timestamp: now };
    let longer = window.push(added);
    let after = state.recorded(action_type, reversible, now);
    let witness = choose|i: int|
        0 <= i < state.window.len() && state.scope.contains(
            (#[trigger] state.window[i]).action_type,
        );
    assert(!pred(window[witness]));
    assert(state.scope.contains(window[witness].action_type));
    assert(!state.scope.is_empty());
    lemma_count_bounds(window, n as int, pred);
    let k = count_all(window, pred);
    assert(k < n);
    lemma_count_prefix(longer, window, n as int, pred);
    assert(pred(longer[n as int]));
    assert(count_all(longer, pred) == k + 1);
    if n < state.capacity {
        assert(after.window == longer);
        lemma_fraction_grows(k, n);
    } else {
        assert(n == 1000);
        assert(after.window == longer.subrange(1, longer.len() as int));
        lemma_count_without_oldest(longer, longer.len() as int, pred);
        assert(longer[0] == window[0]);
        assert(!pred(window[0]));
        assert(count_all(after.window, pred) == k + 1);
        assert(after.window.len() == 1000);
        assert((k + 1) * 1_000_000 / 1000 > k * 1_000_000 / 1000);
    }
}

} // verus!
