//! Runtime governance for autonomous agents.
//!
//! Before an agent acts, the engine decides whether the action may proceed,
//! must wait, needs confirmation, or is blocked. The decision rests on a
//! capability key bound to the measured environment, on a composite risk
//! score over recent behaviour, and on a ladder of governance levels that is
//! climbed at once and descended slowly. Every step is written to a
//! hash-chained log.

pub mod context;
pub mod crypto;
pub mod error;
pub mod flight_recorder;
pub mod gamma;
pub mod json;
pub mod score;
pub mod sentinel;
pub mod simplex;
pub mod text;
pub mod time;
pub mod vdf;

pub use context::{CapabilityKey, ContextEvaluator, ContextSignature};
pub use error::SentinelError;
pub use flight_recorder::{FlightRecorder, LogEntry, LogEntryType};
pub use gamma::{GammaScore, GammaWeights, TrajectoryMonitor};
pub use sentinel::Sentinel;
pub use simplex::{GammaThresholds, GovernanceLevel, InterventionController, SimplexDecision};
pub use time::Timestamp;
pub use vdf::{RateLimitConfig, RateShaper, VdfProof};
