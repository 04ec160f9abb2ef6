//! The pool configuration read by swap settlement.
//!
//! One value of [`PoolConfig`] describes a trading pair's on-ledger state.
//! Settlement only reads it: the fee and the asset identifiers feed the curve
//! and the account checks, `locked` is the circuit breaker, and `seed` with
//! `bump` identify the derived credential that authorizes withdrawals from
//! the pool's vaults. Creation, liquidity management and fee governance
//! happen outside this core.

use vstd::prelude::*;

verus! {

/// One trading pair's configuration.
#[derive(Clone, Copy, Debug, PartialEq, Eq, Structural)]
pub struct PoolConfig {
    /// Unique pool identity discriminator.
    pub seed: u64,
    /// Identifier of asset X; immutable for the pool's lifetime.
    pub mint_x: u64,
    /// Identifier of asset Y; immutable for the pool's lifetime.
    pub mint_y: u64,
    /// Swap fee in basis points, held in `[0, 10000]` by pool governance.
    pub fee: u16,
    /// Circuit breaker: while set, every swap is rejected.
    pub locked: bool,
    /// Derivation nonce of the pool's signing credential.
    pub bump: u8,
}

impl PoolConfig {
    /// Well-formedness established at pool creation and maintained by
    /// governance: the fee never exceeds the whole input (10000 basis
    /// points).
    pub open spec fn wf(self) -> bool {
        self.fee <= 10000
    }
}

} // verus!
