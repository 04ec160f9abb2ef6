use amm_core::auth::{check_authority, prove_authority, AccountOwner, Authority};
use amm_core::errors::AmmError;
use amm_core::ledger::{transfer, TokenAccount};

fn user_account(id: u64, mint: u64, amount: u64) -> TokenAccount {
    TokenAccount { mint, owner: AccountOwner::User { id }, amount }
}

fn vault_account(seed: u64, bump: u8, mint: u64, amount: u64) -> TokenAccount {
    TokenAccount { mint, owner: AccountOwner::PoolAuthority { seed, bump }, amount }
}

#[test]
fn derived_credential_matches_exact_seed_and_bump() {
    let proof = prove_authority(7, 42);
    assert_eq!(proof, Authority::Derived { seed: 7, bump: 42 });
    assert!(check_authority(&proof, &AccountOwner::PoolAuthority { seed: 7, bump: 42 }));
    assert!(!check_authority(&proof, &AccountOwner::PoolAuthority { seed: 7, bump: 43 }));
    assert!(!check_authority(&proof, &AccountOwner::PoolAuthority { seed: 8, bump: 42 }));
    assert!(!check_authority(&proof, &AccountOwner::User { id: 7 }));
}

#[test]
fn direct_credential_matches_owner_only() {
    let signature = Authority::Direct { signer: 11 };
    assert!(check_authority(&signature, &AccountOwner::User { id: 11 }));
    assert!(!check_authority(&signature, &AccountOwner::User { id: 12 }));
    assert!(!check_authority(&signature, &AccountOwner::PoolAuthority { seed: 11, bump: 11 }));
}

#[test]
fn transfer_moves_exactly_the_amount() {
    let mut from = user_account(11, 1, 1_000);
    let mut to = vault_account(7, 42, 1, 250);
    let r = transfer(&mut from, &mut to, &Authority::Direct { signer: 11 }, 400);
    assert_eq!(r, Ok(()));
    assert_eq!(from.amount, 600);
    assert_eq!(to.amount, 650);
}

#[test]
fn transfer_wrong_signer_is_unauthorized() {
    let mut from = user_account(11, 1, 1_000);
    let mut to = vault_account(7, 42, 1, 250);
    let r = transfer(&mut from, &mut to, &Authority::Direct { signer: 12 }, 400);
    assert_eq!(r, Err(AmmError::Unauthorized));
    assert_eq!(from.amount, 1_000);
    assert_eq!(to.amount, 250);
}

#[test]
fn transfer_user_signature_cannot_move_vault_funds() {
    let mut from = vault_account(7, 42, 1, 1_000);
    let mut to = user_account(11, 1, 0);
    let r = transfer(&mut from, &mut to, &Authority::Direct { signer: 11 }, 1);
    assert_eq!(r, Err(AmmError::Unauthorized));
    assert_eq!(from.amount, 1_000);
    assert_eq!(to.amount, 0);
}

#[test]
fn transfer_mismatched_mints_is_account_mismatch() {
    let mut from = user_account(11, 1, 1_000);
    let mut to = vault_account(7, 42, 2, 250);
    let r = transfer(&mut from, &mut to, &Authority::Direct { signer: 11 }, 400);
    assert_eq!(r, Err(AmmError::AccountMismatch));
    assert_eq!(from.amount, 1_000);
    assert_eq!(to.amount, 250);
}

#[test]
fn transfer_underfunded_source_is_insufficient_funds() {
    let mut from = user_account(11, 1, 399);
    let mut to = vault_account(7, 42, 1, 250);
    let r = transfer(&mut from, &mut to, &Authority::Direct { signer: 11 }, 400);
    assert_eq!(r, Err(AmmError::InsufficientFunds));
    assert_eq!(from.amount, 399);
    assert_eq!(to.amount, 250);
}
