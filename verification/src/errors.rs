//! The failure kinds a settlement request can end in.
//!
//! Every failure is terminal for the request and is surfaced as a distinct
//! value; nothing is retried and nothing is converted to a default result.

use vstd::prelude::*;

verus! {

/// Why a swap request was rejected or a ledger instruction refused.
///
/// The first five arise from validation and curve arithmetic, strictly before
/// any transfer is issued; the last three are reported by the ledger when an
/// instruction itself is refused.
#[derive(Clone, Copy, Debug, PartialEq, Eq, Structural)]
pub enum AmmError {
    /// The pool's circuit breaker is set; all swaps are forbidden.
    PoolLocked,
    /// The trader supplied a zero input amount.
    InvalidAmount,
    /// A reserve involved in the trade is zero: the pool has no liquidity.
    EmptyPool,
    /// Curve arithmetic could not produce a result (degenerate denominator or
    /// an intermediate value outside the wide accumulator).
    CurveError,
    /// The computed output fell below the trader's minimum-output floor.
    SlippageExceeded,
    /// The funding account holds less than the requested transfer amount.
    InsufficientFunds,
    /// The presented authority does not control the funding account.
    Unauthorized,
    /// An account's asset identifier does not match the expected one.
    AccountMismatch,
}

} // verus!
