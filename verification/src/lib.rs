//! Mothership: deterministically derived vanity addresses, a Fibonacci-weighted
//! tiered rate engine, an exact fee splitter, and a registry of named assets
//! with dwell-time-gated key rotation.
use vstd::prelude::*;

pub mod fees;
pub mod ids;
pub mod mining;
pub mod registry;
pub mod tiers;

verus! {

/// Lamports per SOL: the smallest indivisible unit of value.
pub const LAMPORTS_PER_SOL: u64 = 1_000_000_000;

/// Global tax rate in basis points (2.5%).
pub const GLOBAL_TAX_BPS: u64 = 250;

/// Basis-point denominator.
pub const BPS_DENOMINATOR: u64 = 10_000;

/// Minimum seconds an entry must exist before its key may be rotated.
pub const MIN_DWELL_SECONDS: i64 = 3600;

/// Every failure the library can signal. No failure is silently swallowed:
/// each public operation says in its contract exactly when each kind comes.
#[derive(Clone, Copy, Debug, PartialEq, Eq, Structural)]
pub enum MothershipError {
    /// No valid discriminant exists for the given seed combination.
    DerivationExhausted,
    /// The vanity search exhausted the whole nonce domain without a match.
    MiningFailed,
    /// An active entry with the same label (or the same address) already exists.
    DuplicateLabel,
    /// No registry entry carries the given address.
    NotFound,
    /// The matching registry entry has been retired.
    Inactive,
    /// The entry has not yet dwelled for the minimum rotation interval.
    TooSoon,
    /// Caller-supplied identifier text is not a canonically encoded identifier.
    InvalidIdentifierEncoding,
    /// Tax component weights do not sum to the total tax rate, or the rate
    /// exceeds the basis-point denominator.
    InvalidTaxConfig,
    /// The process randomness source failed to produce key material.
    KeyGenerationFailed,
}

} // verus!
