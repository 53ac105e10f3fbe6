//! What can go wrong.

use vstd::prelude::*;
use vstd::string::*;
use crate::text::{decimal_text, push_decimal};

verus! {

/// The ways in which an operation of the library fails.
#[derive(Debug)]
pub enum SentinelError {
    /// HKDF expansion failed.
    KeyDerivationFailed,
    /// A context check failed, for the reason given.
    ContextValidationFailed(String),
    /// The capability's validity window does not hold the given time.
    CapabilityExpired(u64),
    /// Deriving the key again gave another key.
    ContextMismatch { expected: String, actual: String },
    /// Too early: try again after the given number of milliseconds.
    RateLimitExceeded { retry_after_ms: u64 },
    /// The governance level forbids the action.
    ActionBlocked { level: u8 },
    /// A human must confirm the action first.
    ConfirmationRequired { action: String },
    /// A log entry could not be put into its canonical form, or the log
    /// could not be exported.
    SerializationError(String),
    /// The log's chain is broken at the given sequence number.
    ChainIntegrityViolation { sequence: u64 },
    /// The configuration is not usable, for the reason given.
    ConfigurationError(String),
}

impl SentinelError {
    /// The error's message.
    pub open spec fn message(self) -> Seq<char> {
        match self {
            SentinelError::KeyDerivationFailed => "Key derivation failed"@,
            SentinelError::ContextValidationFailed(detail) => "Context validation failed: "@
                + detail@,
            SentinelError::CapabilityExpired(at) => "Capability expired at "@ + decimal_text(
                at as nat,
            ),
            SentinelError::ContextMismatch { expected, actual } => "Context mismatch: expected "@
                + expected@ + ", got "@ + actual@,
            SentinelError::RateLimitExceeded { retry_after_ms } => "Rate limit exceeded, retry after "@
                + decimal_text(retry_after_ms as nat) + "ms"@,
            SentinelError::ActionBlocked { level } => "Action blocked at governance level "@
                + decimal_text(level as nat),
            SentinelError::ConfirmationRequired { action } => "Human confirmation required for action: "@
                + action@,
            SentinelError::SerializationError(detail) => "Serialization error: "@ + detail@,
            SentinelError::ChainIntegrityViolation { sequence } => "Flight recorder chain integrity violation at sequence "@
                + decimal_text(sequence as nat),
            SentinelError::ConfigurationError(detail) => "Configuration error: "@ + detail@,
        }
    }

    /// The governance level forbids the action.
    pub fn is_blocked(&self) -> (yes: bool)
        ensures
            yes == (*self is ActionBlocked),
    {
        match self {
            SentinelError::ActionBlocked { .. } => true,
            _ => false,
        }
    }

    /// A human has to step in.
    pub fn requires_human(&self) -> (yes: bool)
        ensures
            yes == (*self is ConfirmationRequired),
    {
        match self {
            SentinelError::ConfirmationRequired { .. } => true,
            _ => false,
        }
    }

    /// Trying again after a delay can succeed.
    pub fn is_retryable(&self) -> (yes: bool)
        ensures
            yes == (*self is RateLimitExceeded),
    {
        match self {
            SentinelError::RateLimitExceeded { .. } => true,
            _ => false,
        }
    }

    /// The delay after which to try again, where there is one.
    pub fn retry_after_ms(&self) -> (delay: Option<u64>)
        ensures
            delay == (match *self {
                SentinelError::RateLimitExceeded { retry_after_ms } => Some(retry_after_ms),
                _ => None,
            }),
    {
        match self {
            SentinelError::RateLimitExceeded { retry_after_ms } => Some(*retry_after_ms),
            _ => None,
        }
    }

    /// The error's message as a string.
    pub fn to_string(&self) -> (text: String)
        ensures
            text@ == self.message(),
    {
        match self {
            SentinelError::KeyDerivationFailed => String::from_str("Key derivation failed"),
            SentinelError::ContextValidationFailed(detail) => {
                String::from_str("Context validation failed: ").concat(detail.as_str())
            },
            SentinelError::CapabilityExpired(at) => {
                let mut text = String::from_str("Capability expired at ");
                push_decimal(&mut text, *at);
                text
            },
            SentinelError::ContextMismatch { expected, actual } => {
                let mut text = String::from_str("Context mismatch: expected ");
                text.append(expected.as_str());
                text.append(", got ");
                text.append(actual.as_str());
                text
            },
            SentinelError::RateLimitExceeded { retry_after_ms } => {
                let mut text = String::from_str("Rate limit exceeded, retry after ");
                push_decimal(&mut text, *retry_after_ms);
                text.append("ms");
                text
            },
            SentinelError::ActionBlocked { level } => {
                let mut text = String::from_str("Action blocked at governance level ");
                push_decimal(&mut text, *level as u64);
                text
            },
            SentinelError::ConfirmationRequired { action } => {
                String::from_str("Human confirmation required for action: ").concat(
                    action.as_str(),
                )
            },
            SentinelError::SerializationError(detail) => {
                String::from_str("Serialization error: ").concat(detail.as_str())
            },
            SentinelError::ChainIntegrityViolation { sequence } => {
                let mut text = String::from_str(
                    "Flight recorder chain integrity violation at sequence ",
                );
                push_decimal(&mut text, *sequence);
                text
            },
            SentinelError::ConfigurationError(detail) => {
                String::from_str("Configuration error: ").concat(detail.as_str())
            },
        }
    }
}

} // verus!
