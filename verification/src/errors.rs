//! The fatal configuration errors: a capture request that breaks one of its
//! invariants is rejected before any subprocess is spawned.

use vstd::prelude::*;

verus! {

/// Why a capture request was rejected at construction.
#[derive(Clone, Copy, Debug, PartialEq, Eq, Structural)]
pub enum ConfigError {
    /// The domain filter pattern is not a valid regular expression.
    InvalidPattern,
    /// The declared timeout is zero seconds.
    ZeroTimeout,
    /// The requested signature count is zero.
    ZeroTarget,
}

impl ConfigError {
    /// A short diagnostic text for the error.
    pub fn describe(&self) -> (r: &'static str)
        ensures
            r@ == match self {
                ConfigError::InvalidPattern => "invalid domain regex pattern"@,
                ConfigError::ZeroTimeout => "timeout must be at least one second"@,
                ConfigError::ZeroTarget => "target count must be at least one"@,
            },
    {
        match self {
            ConfigError::InvalidPattern => "invalid domain regex pattern",
            ConfigError::ZeroTimeout => "timeout must be at least one second",
            ConfigError::ZeroTarget => "target count must be at least one",
        }
    }
}

} // verus!
