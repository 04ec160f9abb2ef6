//! The swap orchestrator.
//!
//! [`Swap`] bundles everything one settlement touches: the pool
//! configuration, the two pool vaults, the trader's two accounts and the
//! trader's signing identity. [`Swap::swap`] validates the request, prices it
//! on the curve, and then issues the two fund movements — deposit of the sold
//! asset into the vault under the trader's signature, withdrawal of the
//! bought asset to the trader under the pool-derived credential. The two
//! movements commit together or not at all: on any failure the accounts are
//! exactly as they were.

use vstd::prelude::*;

use crate::auth::{prove_authority, Authority};
use crate::curve::{compute_swap, swap_fee, swap_output, SwapResult};
use crate::errors::AmmError;
use crate::ledger::{transfer, transfer_result, TokenAccount};
use crate::pool::PoolConfig;

verus! {

/// The accounts one swap settlement reads and writes.
#[derive(Clone, Copy, Debug, PartialEq, Eq, Structural)]
pub struct Swap {
    /// Signing identity of the trader.
    pub user: u64,
    /// The pool's configuration; settlement only reads it.
    pub config: PoolConfig,
    /// Pool vault holding the reserve of asset X.
    pub vault_x: TokenAccount,
    /// Pool vault holding the reserve of asset Y.
    pub vault_y: TokenAccount,
    /// The trader's account for asset X.
    pub user_x: TokenAccount,
    /// The trader's account for asset Y.
    pub user_y: TokenAccount,
}

impl Swap {
    /// Whether every account carries the asset the configuration says it
    /// must: vaults and user accounts for X hold `mint_x`, those for Y hold
    /// `mint_y`.
    pub open spec fn mints_match(self) -> bool {
        &&& self.vault_x.mint == self.config.mint_x
        &&& self.vault_y.mint == self.config.mint_y
        &&& self.user_x.mint == self.config.mint_x
        &&& self.user_y.mint == self.config.mint_y
    }

    /// What depositing `amount` of the sold asset does: a transfer from the
    /// trader's account into the matching vault, authorized by the trader's
    /// own signature.
    pub open spec fn deposit_result(self, is_x: bool, amount: u64) -> Result<Swap, AmmError> {
        if is_x {
            match transfer_result(
                self.user_x,
                self.vault_x,
                Authority::Direct { signer: self.user },
                amount,
            ) {
                Ok(pair) => Ok(Swap { user_x: pair.0, vault_x: pair.1, ..self }),
                Err(e) => Err(e),
            }
        } else {
            match transfer_result(
                self.user_y,
                self.vault_y,
                Authority::Direct { signer: self.user },
                amount,
            ) {
                Ok(pair) => Ok(Swap { user_y: pair.0, vault_y: pair.1, ..self }),
                Err(e) => Err(e),
            }
        }
    }

    /// What withdrawing `amount` of the bought asset does: a transfer from
    /// the opposite vault to the trader's account, authorized by the
    /// credential derived from exactly the `seed` and `bump` stored in the
    /// configuration.
    pub open spec fn withdraw_result(self, is_x: bool, amount: u64) -> Result<Swap, AmmError> {
        if is_x {
            match transfer_result(
                self.vault_y,
                self.user_y,
                Authority::Derived { seed: self.config.seed, bump: self.config.bump },
                amount,
            ) {
                Ok(pair) => Ok(Swap { vault_y: pair.0, user_y: pair.1, ..self }),
                Err(e) => Err(e),
            }
        } else {
            match transfer_result(
                self.vault_x,
                self.user_x,
                Authority::Derived { seed: self.config.seed, bump: self.config.bump },
                amount,
            ) {
                Ok(pair) => Ok(Swap { vault_x: pair.0, user_x: pair.1, ..self }),
                Err(e) => Err(e),
            }
        }
    }

    /// The whole settlement as one function of the starting state: either
    /// the post-swap accounts together with the amounts settled, or the
    /// error that rejected the request. The checks run in the order the
    /// orchestrator performs them: circuit breaker, input amount, account
    /// mints, pool liquidity, slippage floor, then the two transfers.
    pub open spec fn swap_result(self, is_x: bool, amount_in: u64, min_amount_out: u64) -> Result<
        (Swap, SwapResult),
        AmmError,
    > {
        if self.config.locked {
            Err(AmmError::PoolLocked)
        } else if amount_in == 0 {
            Err(AmmError::InvalidAmount)
        } else if !self.mints_match() {
            Err(AmmError::AccountMismatch)
        } else {
            let reserve_in = if is_x { self.vault_x.amount } else { self.vault_y.amount };
            let reserve_out = if is_x { self.vault_y.amount } else { self.vault_x.amount };
            if reserve_in == 0 || reserve_out == 0 {
                Err(AmmError::EmptyPool)
            } else {
                let out = swap_output(reserve_in, reserve_out, amount_in, self.config.fee);
                if out < min_amount_out {
                    Err(AmmError::SlippageExceeded)
                } else {
                    match self.deposit_result(is_x, amount_in) {
                        Err(e) => Err(e),
                        Ok(deposited) => match deposited.withdraw_result(is_x, out as u64) {
                            Err(e) => Err(e),
                            Ok(settled) => Ok(
                                (
                                    settled,
                                    SwapResult {
                                        amount_out: out as u64,
                                        fee_charged: swap_fee(amount_in, self.config.fee) as u64,
                                    },
                                ),
                            ),
                        },
                    }
                }
            }
        }
    }

    /// Deposit leg: move `amount` of the sold asset from the trader's
    /// account into the matching vault, under the trader's signature. The
    /// precondition records that the moving pair's balances belong to one
    /// asset whose supply fits in `u64`. On failure nothing changes.
    pub fn deposit_tokens(&mut self, is_x: bool, amount: u64) -> (r: Result<(), AmmError>)
        requires
            is_x ==> old(self).user_x.amount + old(self).vault_x.amount <= u64::MAX,
            !is_x ==> old(self).user_y.amount + old(self).vault_y.amount <= u64::MAX,
        ensures
            r is Ok ==> old(self).deposit_result(is_x, amount) == Ok::<Swap, AmmError>(
                *final(self),
            ),
            r matches Err(e) ==> old(self).deposit_result(is_x, amount) == Err::<Swap, AmmError>(
                e,
            ),
            r is Err ==> *final(self) == *old(self),
    {
        let authority = Authority::Direct { signer: self.user };
        if is_x {
            let mut from = self.user_x;
            let mut to = self.vault_x;
            match transfer(&mut from, &mut to, &authority, amount) {
                Ok(()) => {
                    self.user_x = from;
                    self.vault_x = to;
                    Ok(())
                },
                Err(e) => Err(e),
            }
        } else {
            let mut from = self.user_y;
            let mut to = self.vault_y;
            match transfer(&mut from, &mut to, &authority, amount) {
                Ok(()) => {
                    self.user_y = from;
                    self.vault_y = to;
                    Ok(())
                },
                Err(e) => Err(e),
            }
        }
    }

    /// Withdrawal leg: move `amount` of the bought asset from the opposite
    /// vault to the trader's account, under the pool-derived credential
    /// built from the stored `seed` and `bump`. On failure nothing changes.
    pub fn withdraw_tokens(&mut self, is_x: bool, amount: u64) -> (r: Result<(), AmmError>)
        requires
            is_x ==> old(self).vault_y.amount + old(self).user_y.amount <= u64::MAX,
            !is_x ==> old(self).vault_x.amount + old(self).user_x.amount <= u64::MAX,
        ensures
            r is Ok ==> old(self).withdraw_result(is_x, amount) == Ok::<Swap, AmmError>(
                *final(self),
            ),
            r matches Err(e) ==> old(self).withdraw_result(is_x, amount) == Err::<Swap, AmmError>(
                e,
            ),
            r is Err ==> *final(self) == *old(self),
    {
        let authority = prove_authority(self.config.seed, self.config.bump);
        if is_x {
            let mut from = self.vault_y;
            let mut to = self.user_y;
            match transfer(&mut from, &mut to, &authority, amount) {
                Ok(()) => {
                    self.vault_y = from;
                    self.user_y = to;
                    Ok(())
                },
                Err(e) => Err(e),
            }
        } else {
            let mut from = self.vault_x;
            let mut to = self.user_x;
            match transfer(&mut from, &mut to, &authority, amount) {
                Ok(()) => {
                    self.vault_x = from;
                    self.user_x = to;
                    Ok(())
                },
                Err(e) => Err(e),
            }
        }
    }

    /// Settle one swap atomically.
    ///
    /// Validates the circuit breaker, the input amount and the account
    /// mints, prices the request on the curve over the pre-swap vault
    /// balances, enforces the trader's minimum-output floor, and only then
    /// moves funds: the deposit under the trader's signature, the withdrawal
    /// under the pool-derived credential. The two movements are applied to a
    /// staged copy of the accounts and committed together, so a failure of
    /// either leg — like every validation failure — leaves every account
    /// exactly as it was.
    ///
    /// The preconditions record the configuration invariant (fee within
    /// 10000 basis points) and that each asset's total supply fits in `u64`.
    pub fn swap(&mut self, is_x: bool, amount_in: u64, min_amount_out: u64) -> (r: Result<
        SwapResult,
        AmmError,
    >)
        requires
            old(self).config.wf(),
            old(self).user_x.amount + old(self).vault_x.amount <= u64::MAX,
            old(self).user_y.amount + old(self).vault_y.amount <= u64::MAX,
        ensures
            r matches Ok(res) ==> old(self).swap_result(is_x, amount_in, min_amount_out)
                == Ok::<(Swap, SwapResult), AmmError>((*final(self), res)),
            r matches Err(e) ==> old(self).swap_result(is_x, amount_in, min_amount_out)
                == Err::<(Swap, SwapResult), AmmError>(e),
            r is Err ==> *final(self) == *old(self),
            old(self).config.locked ==> r == Err::<SwapResult, AmmError>(AmmError::PoolLocked),
            !old(self).config.locked && amount_in == 0 ==> r == Err::<SwapResult, AmmError>(
                AmmError::InvalidAmount,
            ),
            r matches Ok(res) ==> res.amount_out >= min_amount_out,
            r matches Ok(res) ==> final(self).user_x.amount + final(self).vault_x.amount
                == old(self).user_x.amount + old(self).vault_x.amount,
            r matches Ok(res) ==> final(self).user_y.amount + final(self).vault_y.amount
                == old(self).user_y.amount + old(self).vault_y.amount,
            final(self).config == old(self).config && final(self).user == old(self).user,
    {
        if self.config.locked {
            return Err(AmmError::PoolLocked);
        }
        if amount_in == 0 {
            return Err(AmmError::InvalidAmount);
        }
        if !(self.vault_x.mint == self.config.mint_x && self.vault_y.mint == self.config.mint_y
            && self.user_x.mint == self.config.mint_x && self.user_y.mint == self.config.mint_y) {
            return Err(AmmError::AccountMismatch);
        }

        let reserve_in: u64 = if is_x { self.vault_x.amount } else { self.vault_y.amount };
        let reserve_out: u64 = if is_x { self.vault_y.amount } else { self.vault_x.amount };

        let result = match compute_swap(reserve_in, reserve_out, amount_in, self.config.fee, Some(6)) {
            Ok(res) => res,
            Err(e) => {
                return Err(e);
            },
        };
        if result.amount_out < min_amount_out {
            return Err(AmmError::SlippageExceeded);
        }

        let mut staged = *self;
        match staged.deposit_tokens(is_x, amount_in) {
            Ok(()) => {},
            Err(e) => {
                return Err(e);
            },
        }
        match staged.withdraw_tokens(is_x, result.amount_out) {
            Ok(()) => {},
            Err(e) => {
                return Err(e);
            },
        }
        *self = staged;
        Ok(result)
    }
}

} // verus!
