//! The token-account model and the ledger transfer primitive.
//!
//! A [`TokenAccount`] is the settlement-relevant view of one balance: which
//! asset it holds, who controls it, and how much is in it. [`transfer`] is
//! the one instruction through which settlement moves funds; it refuses an
//! unauthorized credential, a mismatched asset, or an underfunded source, and
//! on refusal leaves both accounts untouched.

use vstd::prelude::*;

use crate::auth::{authorizes, check_authority, AccountOwner, Authority};
use crate::errors::AmmError;

verus! {

/// One token balance: the pool's custodial reserve of an asset when owned by
/// the pool authority, or a trader's holding when owned by a user.
#[derive(Clone, Copy, Debug, PartialEq, Eq, Structural)]
pub struct TokenAccount {
    /// Identifier of the asset this account holds.
    pub mint: u64,
    /// Who may authorize outgoing transfers.
    pub owner: AccountOwner,
    /// Current balance, never negative.
    pub amount: u64,
}

/// What one transfer instruction does: either both post-transfer accounts,
/// in `(from, to)` order, or the error the ledger reports. Checks run in the
/// order authorization, asset match, funds; no balance changes on any error.
pub open spec fn transfer_result(
    from: TokenAccount,
    to: TokenAccount,
    authority: Authority,
    amount: u64,
) -> Result<(TokenAccount, TokenAccount), AmmError> {
    if !authorizes(authority, from.owner) {
        Err(AmmError::Unauthorized)
    } else if from.mint != to.mint {
        Err(AmmError::AccountMismatch)
    } else if from.amount < amount {
        Err(AmmError::InsufficientFunds)
    } else {
        Ok(
            (
                TokenAccount { mint: from.mint, owner: from.owner, amount: (from.amount - amount) as u64 },
                TokenAccount { mint: to.mint, owner: to.owner, amount: (to.amount + amount) as u64 },
            ),
        )
    }
}

/// Move `amount` from `from` to `to` under the presented `authority`.
///
/// The two accounts hold balances of one asset whose total supply fits in
/// `u64`, which is what the precondition records; it rules out overflow of
/// the receiving balance. On success both balances move by exactly `amount`;
/// on failure the reported error is the one [`transfer_result`] names and
/// neither account changes.
pub fn transfer(
    from: &mut TokenAccount,
    to: &mut TokenAccount,
    authority: &Authority,
    amount: u64,
) -> (r: Result<(), AmmError>)
    requires
        old(from).amount + old(to).amount <= u64::MAX,
    ensures
        r is Ok ==> transfer_result(*old(from), *old(to), *authority, amount)
            == Ok::<(TokenAccount, TokenAccount), AmmError>((*final(from), *final(to))),
        r matches Err(e) ==> transfer_result(*old(from), *old(to), *authority, amount)
            == Err::<(TokenAccount, TokenAccount), AmmError>(e),
        r is Err ==> *final(from) == *old(from) && *final(to) == *old(to),
{
    if !check_authority(authority, &from.owner) {
        return Err(AmmError::Unauthorized);
    }
    if from.mint != to.mint {
        return Err(AmmError::AccountMismatch);
    }
    if from.amount < amount {
        return Err(AmmError::InsufficientFunds);
    }
    from.amount = from.amount - amount;
    to.amount = to.amount + amount;
    Ok(())
}

} // verus!
