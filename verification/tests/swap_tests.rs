use amm_core::auth::AccountOwner;
use amm_core::curve::SwapResult;
use amm_core::errors::AmmError;
use amm_core::ledger::TokenAccount;
use amm_core::pool::PoolConfig;
use amm_core::swap::Swap;

const MINT_X: u64 = 1;
const MINT_Y: u64 = 2;
const TRADER: u64 = 11;
const SEED: u64 = 7;
const BUMP: u8 = 42;

/// A healthy pool: one million of each reserve, 30 basis points of fee, and a
/// trader holding 50_000 X and 1_000 Y.
fn pool() -> Swap {
    Swap {
        user: TRADER,
        config: PoolConfig {
            seed: SEED,
            mint_x: MINT_X,
            mint_y: MINT_Y,
            fee: 30,
            locked: false,
            bump: BUMP,
        },
        vault_x: TokenAccount {
            mint: MINT_X,
            owner: AccountOwner::PoolAuthority { seed: SEED, bump: BUMP },
            amount: 1_000_000,
        },
        vault_y: TokenAccount {
            mint: MINT_Y,
            owner: AccountOwner::PoolAuthority { seed: SEED, bump: BUMP },
            amount: 1_000_000,
        },
        user_x: TokenAccount { mint: MINT_X, owner: AccountOwner::User { id: TRADER }, amount: 50_000 },
        user_y: TokenAccount { mint: MINT_Y, owner: AccountOwner::User { id: TRADER }, amount: 1_000 },
    }
}

#[test]
fn swap_settles_both_legs_exactly() {
    let mut s = pool();
    let r = s.swap(true, 10_000, 9_000);
    assert_eq!(r, Ok(SwapResult { amount_out: 9_872, fee_charged: 30 }));
    assert_eq!(s.user_x.amount, 40_000);
    assert_eq!(s.vault_x.amount, 1_010_000);
    assert_eq!(s.vault_y.amount, 990_128);
    assert_eq!(s.user_y.amount, 10_872);
    // No value created or destroyed in either asset.
    assert_eq!(s.user_x.amount + s.vault_x.amount, 1_050_000);
    assert_eq!(s.user_y.amount + s.vault_y.amount, 1_001_000);
}

#[test]
fn swap_opposite_direction_is_symmetric() {
    let mut s = pool();
    let before = s;
    let r = s.swap(false, 1_000, 0);
    // reserves are symmetric, so selling 1_000 Y prices the same way:
    // effective_in = 997, quotient = 10^12 / 1_000_997 = 999_003
    // (remainder 994_009), amount_out = 1_000_000 - 999_003 = 997.
    assert_eq!(r, Ok(SwapResult { amount_out: 997, fee_charged: 3 }));
    assert_eq!(s.user_y.amount, 0);
    assert_eq!(s.vault_y.amount, 1_001_000);
    assert_eq!(s.vault_x.amount, before.vault_x.amount - 997);
    assert_eq!(s.user_x.amount, before.user_x.amount + 997);
}

#[test]
fn locked_pool_rejects_any_input_and_mutates_nothing() {
    for (amount_in, min_out) in [(10_000u64, 0u64), (0, 0), (u64::MAX, u64::MAX), (1, 1)] {
        let mut s = pool();
        s.config.locked = true;
        let before = s;
        assert_eq!(s.swap(true, amount_in, min_out), Err(AmmError::PoolLocked));
        assert_eq!(s, before);
        let mut s = pool();
        s.config.locked = true;
        assert_eq!(s.swap(false, amount_in, min_out), Err(AmmError::PoolLocked));
        assert_eq!(s, before);
    }
}

#[test]
fn zero_amount_rejected_before_any_transfer() {
    let mut s = pool();
    let before = s;
    assert_eq!(s.swap(true, 0, 0), Err(AmmError::InvalidAmount));
    assert_eq!(s, before);
}

#[test]
fn empty_pool_rejected() {
    let mut s = pool();
    s.vault_y.amount = 0;
    let before = s;
    assert_eq!(s.swap(true, 10_000, 0), Err(AmmError::EmptyPool));
    assert_eq!(s, before);

    let mut s = pool();
    s.vault_x.amount = 0;
    let before = s;
    assert_eq!(s.swap(true, 10_000, 0), Err(AmmError::EmptyPool));
    assert_eq!(s, before);
}

#[test]
fn slippage_floor_above_true_output_rejects() {
    // True output on this pool for 10_000 in is 9_872; a floor of 9_900
    // rejects, and nothing moves.
    let mut s = pool();
    let before = s;
    assert_eq!(s.swap(true, 10_000, 9_900), Err(AmmError::SlippageExceeded));
    assert_eq!(s, before);
}

#[test]
fn slippage_floor_is_a_strict_boundary() {
    let mut s = pool();
    let before = s;
    assert_eq!(s.swap(true, 10_000, 9_873), Err(AmmError::SlippageExceeded));
    assert_eq!(s, before);
    let r = s.swap(true, 10_000, 9_872);
    assert_eq!(r, Ok(SwapResult { amount_out: 9_872, fee_charged: 30 }));
}

#[test]
fn failing_withdrawal_after_good_deposit_leaves_no_trace() {
    // The withdrawal vault answers to a different bump than the one stored in
    // the configuration, so the second ledger instruction fails after the
    // first would have succeeded. The deposit must not remain visible.
    let mut s = pool();
    s.vault_y.owner = AccountOwner::PoolAuthority { seed: SEED, bump: BUMP + 1 };
    let before = s;
    assert_eq!(s.swap(true, 10_000, 9_000), Err(AmmError::Unauthorized));
    assert_eq!(s, before);
}

#[test]
fn underfunded_trader_rejected_on_deposit_leg() {
    let mut s = pool();
    s.user_x.amount = 9_999;
    let before = s;
    assert_eq!(s.swap(true, 10_000, 0), Err(AmmError::InsufficientFunds));
    assert_eq!(s, before);
}

#[test]
fn mismatched_account_mint_rejected() {
    let mut s = pool();
    s.user_y.mint = MINT_X;
    let before = s;
    assert_eq!(s.swap(true, 10_000, 0), Err(AmmError::AccountMismatch));
    assert_eq!(s, before);
}

#[test]
fn wrong_signer_on_source_account_rejected() {
    let mut s = pool();
    s.user_x.owner = AccountOwner::User { id: TRADER + 1 };
    let before = s;
    assert_eq!(s.swap(true, 10_000, 0), Err(AmmError::Unauthorized));
    assert_eq!(s, before);
}

#[test]
fn larger_input_never_buys_less() {
    let mut previous = 0u64;
    for amount_in in [1u64, 7, 500, 10_000, 49_999] {
        let mut s = pool();
        let r = s.swap(true, amount_in, 0).unwrap();
        assert!(r.amount_out >= previous);
        previous = r.amount_out;
    }
}
