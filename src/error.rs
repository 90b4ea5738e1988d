//! The failures the engine distinguishes.
use vstd::prelude::*;

verus! {

/// Why an operation failed; each variant carries a description for the log.
pub enum SyncError {
    /// The network could not be reached or the connection broke.
    Transport(String),
    /// The remote answered with a structured error other than rate limiting.
    Protocol(String),
    /// A payload could not be decoded.
    Decode(String),
    /// A rate-limited call was refused on every allowed attempt.
    RateLimitExhausted(String),
    /// The target directory is missing or unusable.
    Configuration(String),
}

} // verus!
