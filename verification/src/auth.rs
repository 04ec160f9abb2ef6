//! The two authorization modes of an outgoing transfer.
//!
//! The deposit leg of a swap moves funds out of an account the trader
//! controls and is authorized by the trader's own signature. The withdrawal
//! leg moves funds out of the pool's vault and is authorized by a credential
//! derived from the pool's identity (its `seed`) together with the bump
//! stored in the pool configuration — the pool holds no secret of its own,
//! and any mismatch in that pair must fail authorization rather than fall
//! back to some other credential.

use vstd::prelude::*;

verus! {

/// Who controls a token account: a user identified by their signing key, or
/// the pool authority derived from a pool's `seed` and `bump`.
#[derive(Clone, Copy, Debug, PartialEq, Eq, Structural)]
pub enum AccountOwner {
    /// The account belongs to an ordinary user.
    User { id: u64 },
    /// The account is a pool vault, controlled by the derived pool authority.
    PoolAuthority { seed: u64, bump: u8 },
}

/// The credential presented with a transfer instruction.
#[derive(Clone, Copy, Debug, PartialEq, Eq, Structural)]
pub enum Authority {
    /// The trader's own signature: valid only for accounts the signer owns.
    Direct { signer: u64 },
    /// A credential derived from a pool's identity: valid only for the vault
    /// created under exactly that `seed` and `bump`.
    Derived { seed: u64, bump: u8 },
}

/// Whether a presented credential controls an account: a direct signature
/// must name the owning user, and a derived credential must carry exactly
/// the seed and bump the vault was created under. A credential of the wrong
/// kind authorizes nothing.
pub open spec fn authorizes(authority: Authority, owner: AccountOwner) -> bool {
    match (authority, owner) {
        (Authority::Direct { signer }, AccountOwner::User { id }) => signer == id,
        (
            Authority::Derived { seed, bump },
            AccountOwner::PoolAuthority { seed: vault_seed, bump: vault_bump },
        ) => seed == vault_seed && bump == vault_bump,
        _ => false,
    }
}

/// Decide whether `authority` controls an account owned by `owner`.
pub fn check_authority(authority: &Authority, owner: &AccountOwner) -> (r: bool)
    ensures
        r == authorizes(*authority, *owner),
{
    match (authority, owner) {
        (Authority::Direct { signer }, AccountOwner::User { id }) => *signer == *id,
        (
            Authority::Derived { seed, bump },
            AccountOwner::PoolAuthority { seed: vault_seed, bump: vault_bump },
        ) => *seed == *vault_seed && *bump == *vault_bump,
        _ => false,
    }
}

/// Produce the pool-derived credential for the given pool identity. The
/// credential is a pure function of the public `seed` and the stored `bump`;
/// it is the caller's execution context, not a held secret, that makes it
/// usable.
pub fn prove_authority(seed: u64, bump: u8) -> (r: Authority)
    ensures
        r == (Authority::Derived { seed, bump }),
{
    Authority::Derived { seed, bump }
}

} // verus!
