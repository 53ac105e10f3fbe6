//! The rate shaper: a delay that cannot be bought off with more cores.
//!
//! The input is hashed, and the digest is hashed again and again, each step
//! needing the one before. The proof of the work is the first digest, the
//! last, and the number of steps; checking it repeats the steps.

use vstd::prelude::*;
use crate::crypto::{constant_time_eq, sha256, sha256_digest};
use crate::time::millis_since;

verus! {

/// Hash steps per millisecond of target delay.
pub const ITERATIONS_PER_MS: u64 = 1000;

/// `start` hashed `n` times over.
pub open spec fn hash_chain(start: Seq<u8>, n: nat) -> Seq<u8>
    decreases n,
{
    if n == 0 {
        start
    } else {
        sha256(hash_chain(start, (n - 1) as nat))
    }
}

/// Evidence that a chain of hash steps was walked.
#[derive(Debug, Clone, Copy)]
pub struct VdfProof {
    /// The digest of the caller's bytes, where the chain starts.
    pub input: [u8; 32],
    /// The digest after the last step.
    pub output: [u8; 32],
    /// The number of steps.
    pub iterations: u64,
    /// How long the walk took, in milliseconds, as measured by the walker.
    pub computation_time_ms: u64,
}

impl VdfProof {
    /// The output is what `iterations` steps from the input lead to.
    pub open spec fn is_valid(self) -> bool {
        hash_chain(self.input@, self.iterations as nat) == self.output@
    }

    /// Walks the chain again and compares. This takes as long as making
    /// the proof did.
    pub fn verify(&self) -> (ok: bool)
        ensures
            ok == self.is_valid(),
    {
        let end = walk(&self.input, self.iterations);
        constant_time_eq(&end, &self.output)
    }
}

/// Walks `iterations` hash steps from `start`.
pub fn walk(start: &[u8; 32], iterations: u64) -> (end: [u8; 32])
    ensures
        end@ == hash_chain(start@, iterations as nat),
{
    let mut current: [u8; 32] = *start;
    let mut i: u64 = 0;
    while i < iterations
        invariant
            i <= iterations,
            current@ == hash_chain(start@, i as nat),
        decreases iterations - i,
    {
        current = sha256_digest(current.as_slice());
        i = i + 1;
    }
    current
}

/// The shaper's state as the rules see it.
pub struct ShaperState {
    /// The delay to impose, in milliseconds.
    pub target_delay_ms: u64,
    /// The number of hash steps that stands for the delay.
    pub iterations: u64,
    /// When the last evaluation began, in milliseconds on the shaper's
    /// monotonic clock.
    pub last_evaluation_ms: Option<u64>,
}

impl ShaperState {
    /// The state after an evaluation that began at `started_ms`.
    pub open spec fn evaluated(self, started_ms: u64) -> ShaperState {
        ShaperState { last_evaluation_ms: Some(started_ms), ..self }
    }

    /// The proof that an evaluation of `input` gives, begun at
    /// `started_ms` and finished at `finished_ms`.
    pub open spec fn proof_is(
        self,
        input: Seq<u8>,
        started_ms: u64,
        finished_ms: u64,
        proof: VdfProof,
    ) -> bool {
        &&& proof.input@ == sha256(input)
        &&& proof.output@ == hash_chain(sha256(input), self.iterations as nat)
        &&& proof.iterations == self.iterations
        &&& proof.computation_time_ms == if finished_ms >= started_ms {
            finished_ms - started_ms
        } else {
            0
        }
    }

    /// Milliseconds still to wait at `now_ms` before the next evaluation
    /// is due; zero when none has been made or the delay has passed.
    pub open spec fn wait_at(self, now_ms: u64) -> int {
        match self.last_evaluation_ms {
            None => 0,
            Some(last) => {
                let elapsed = if now_ms >= last {
                    now_ms - last
                } else {
                    0
                };
                if elapsed >= self.target_delay_ms {
                    0
                } else {
                    self.target_delay_ms - elapsed
                }
            },
        }
    }

    /// The answer of the rate limit at `now_ms`: `Ok` when nothing is left
    /// to wait, else the milliseconds left.
    pub open spec fn limit_at(self, now_ms: u64) -> Result<(), u64> {
        if self.wait_at(now_ms) == 0 {
            Ok(())
        } else {
            Err(self.wait_at(now_ms) as u64)
        }
    }
}

/// Imposes a sequential delay before an action.
pub struct RateShaper {
    target_delay_ms: u64,
    iterations: u64,
    /// The monotonic clock reading that counts as time zero.
    clock: std::time::Instant,
    /// When the last evaluation began, in milliseconds since `clock`.
    last_evaluation: Option<u64>,
}

impl View for RateShaper {
    type V = ShaperState;

    closed spec fn view(&self) -> ShaperState {
        ShaperState {
            target_delay_ms: self.target_delay_ms,
            iterations: self.iterations,
            last_evaluation_ms: self.last_evaluation,
        }
    }
}

impl RateShaper {
    /// A shaper for the given delay. The step count it works with must fit
    /// a `u64`. Its clock starts now.
    pub fn new(target_delay_ms: u64) -> (shaper: RateShaper)
        requires
            target_delay_ms * ITERATIONS_PER_MS <= u64::MAX,
        ensures
            shaper@ == (ShaperState {
                target_delay_ms,
                iterations: (target_delay_ms * ITERATIONS_PER_MS) as u64,
                last_evaluation_ms: None,
            }),
    {
        RateShaper {
            target_delay_ms,
            iterations: RateShaper::calibrate(target_delay_ms),
            clock: std::time::Instant::now(),
            last_evaluation: None,
        }
    }

    /// The number of hash steps that stands for a delay: a thousand for
    /// each millisecond.
    pub fn calibrate(target_delay_ms: u64) -> (iterations: u64)
        requires
            target_delay_ms * ITERATIONS_PER_MS <= u64::MAX,
        ensures
            iterations == target_delay_ms * ITERATIONS_PER_MS,
    {
        target_delay_ms * ITERATIONS_PER_MS
    }

    /// Walks the chain for `input` and records that an evaluation began at
    /// `started_ms`. The proof reports the time from `started_ms` to
    /// `finished_ms` as the time the walk took.
    pub fn evaluate_at(&mut self, input: &[u8], started_ms: u64, finished_ms: u64) -> (proof:
        VdfProof)
        ensures
            final(self)@ == old(self)@.evaluated(started_ms),
            old(self)@.proof_is(input@, started_ms, finished_ms, proof),
            proof.is_valid(),
    {
        let first: [u8; 32] = sha256_digest(input);
        let last: [u8; 32] = walk(&first, self.iterations);
        self.last_evaluation = Some(started_ms);
        VdfProof {
            input: first,
            output: last,
            iterations: self.iterations,
            computation_time_ms: if finished_ms >= started_ms {
                finished_ms - started_ms
            } else {
                0
            },
        }
    }

    /// Walks the chain for `input`, timing the walk on the shaper's clock.
    /// Whatever the clock says, the proof is the one for `input` and it is
    /// valid.
    pub fn evaluate(&mut self, input: &[u8]) -> (proof: VdfProof)
        ensures
            exists|started_ms: u64, finished_ms: u64|
                final(self)@ == old(self)@.evaluated(started_ms) && #[trigger] old(
                    self,
                )@.proof_is(input@, started_ms, finished_ms, proof),
            proof.input@ == sha256(input@),
            proof.output@ == hash_chain(sha256(input@), old(self)@.iterations as nat),
            proof.iterations == old(self)@.iterations,
            proof.is_valid(),
    {
        let started_ms: u64 = millis_since(&self.clock);
        let first: [u8; 32] = sha256_digest(input);
        let last: [u8; 32] = walk(&first, self.iterations);
        let finished_ms: u64 = millis_since(&self.clock);
        self.last_evaluation = Some(started_ms);
        let proof = VdfProof {
            input: first,
            output: last,
            iterations: self.iterations,
            computation_time_ms: if finished_ms >= started_ms {
                finished_ms - started_ms
            } else {
                0
            },
        };
        assert(old(self)@.proof_is(input@, started_ms, finished_ms, proof));
        proof
    }

    /// What is left of the target delay after `elapsed_ms` milliseconds.
    pub fn minimum_delay_remaining(&self, elapsed_ms: u64) -> (rest: u64)
        ensures
            rest == if elapsed_ms < self@.target_delay_ms {
                self@.target_delay_ms - elapsed_ms
            } else {
                0
            },
    {
        if elapsed_ms < self.target_delay_ms {
            self.target_delay_ms - elapsed_ms
        } else {
            0
        }
    }

    /// Whether an operation may go ahead at `now_ms` on the shaper's
    /// clock: yes if no evaluation was made yet or the target delay has
    /// passed since the last began; otherwise the milliseconds left.
    pub fn check_rate_limit_at(&self, now_ms: u64) -> (r: Result<(), u64>)
        ensures
            r == self@.limit_at(now_ms),
    {
        match self.last_evaluation {
            None => Ok(()),
            Some(last) => {
                let elapsed: u64 = if now_ms >= last {
                    now_ms - last
                } else {
                    0
                };
                if elapsed >= self.target_delay_ms {
                    Ok(())
                } else {
                    Err(self.target_delay_ms - elapsed)
                }
            },
        }
    }

    /// Whether an operation may go ahead now. Before the first evaluation
    /// the answer is yes, whatever the clock says.
    pub fn check_rate_limit(&self) -> (r: Result<(), u64>)
        ensures
            exists|now_ms: u64| r == #[trigger] self@.limit_at(now_ms),
            self@.last_evaluation_ms is None ==> r is Ok,
            r matches Err(wait) ==> 0 < wait <= self@.target_delay_ms,
    {
        let now_ms: u64 = millis_since(&self.clock);
        self.check_rate_limit_at(now_ms)
    }

    /// The delay the shaper imposes, in milliseconds.
    pub fn target_delay(&self) -> (ms: u64)
        ensures
            ms == self@.target_delay_ms,
    {
        self.target_delay_ms
    }

    /// The number of hash steps of one evaluation.
    pub fn iterations(&self) -> (n: u64)
        ensures
            n == self@.iterations,
    {
        self.iterations
    }
}

/// Delays for classes of operations, in milliseconds.
#[derive(Debug, Clone, Copy)]
pub struct RateLimitConfig {
    pub low_risk_delay_ms: u64,
    pub medium_risk_delay_ms: u64,
    pub high_risk_delay_ms: u64,
    pub irreversible_delay_ms: u64,
}

impl Default for RateLimitConfig {
    /// A tenth of a second, one second, five seconds, and half a minute
    /// for what cannot be undone.
    fn default() -> (config: RateLimitConfig)
        ensures
            config.low_risk_delay_ms == 100,
            config.medium_risk_delay_ms == 1000,
            config.high_risk_delay_ms == 5000,
            config.irreversible_delay_ms == 30000,
    {
        RateLimitConfig {
            low_risk_delay_ms: 100,
            medium_risk_delay_ms: 1000,
            high_risk_delay_ms: 5000,
            irreversible_delay_ms: 30000,
        }
    }
}

/// Walking `a` steps and then `b` more is walking `a + b` steps.
pub proof fn lemma_hash_chain_split(start: Seq<u8>, a: nat, b: nat)
    ensures
        hash_chain(start, a + b) == hash_chain(hash_chain(start, a), b),
    decreases b,
{
    if b > 0 {
        lemma_hash_chain_split(start, a, (b - 1) as nat);
        assert((a + b - 1) as nat == a + (b - 1) as nat);
    }
}

/// A proof with a forged output is rejected: if a valid proof's output is
/// replaced by any other value, the result is not valid.
pub proof fn lemma_altered_output_rejected(proof: VdfProof, altered: VdfProof)
    requires
        proof.is_valid(),
        altered.input@ == proof.input@,
        altered.iterations == proof.iterations,
        altered.output@ != proof.output@,
    ensures
        !altered.is_valid(),
{
}

/// A proof with another step count passes only where the chain runs in a
/// circle: if a valid proof stays valid with a different number of steps,
/// then walking on from its output by the difference leads back to the
/// output.
pub proof fn lemma_altered_iterations_need_cycle(proof: VdfProof, altered: VdfProof)
    requires
        proof.is_valid(),
        altered.is_valid(),
        altered.input@ == proof.input@,
        altered.output@ == proof.output@,
        altered.iterations != proof.iterations,
    ensures
        altered.iterations > proof.iterations ==> hash_chain(
            proof.output@,
            (altered.iterations - proof.iterations) as nat,
        ) == proof.output@,
        altered.iterations < proof.iterations ==> hash_chain(
            proof.output@,
            (proof.iterations - altered.iterations) as nat,
        ) == proof.output@,
{
    if altered.iterations > proof.iterations {
        lemma_hash_chain_split(
            proof.input@,
            proof.iterations as nat,
            (altered.iterations - proof.iterations) as nat,
        );
    } else {
        lemma_hash_chain_split(
            proof.input@,
            altered.iterations as nat,
            (proof.iterations - altered.iterations) as nat,
        );
    }
}

} // verus!
