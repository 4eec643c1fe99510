use bridge_lock::addr::{vault_authority, Address, Pubkey};
use bridge_lock::ledger::{transfer, LedgerError, TokenAccount};
use bridge_lock::lock::{lock_tokens, LockAccount, LockError, LockTokens};

const GOOD_RECIPIENT: &str = "0x1234567890123456789012345678901234567890";

fn key(hi: u128, lo: u128) -> Address {
    Address::Key { id: Pubkey { hi, lo } }
}

fn ctx_for(mint: &Address, user: &Address, user_balance: u64, vault_balance: u64) -> LockTokens {
    LockTokens {
        user: user.clone(),
        lock_account: LockAccount { mint: mint.clone() },
        user_token_account: TokenAccount {
            mint: mint.clone(),
            owner: user.clone(),
            balance: user_balance,
        },
        vault_token_account: TokenAccount {
            mint: mint.clone(),
            owner: vault_authority(mint),
            balance: vault_balance,
        },
    }
}

#[test]
fn successful_lock_moves_the_amount_and_emits_the_event() {
    let mint = key(1, 1);
    let user = key(2, 2);
    let mut ctx = ctx_for(&mint, &user, 1000, 50);
    let ev = lock_tokens(&mut ctx, 100, String::from(GOOD_RECIPIENT)).unwrap();
    assert_eq!(ctx.user_token_account.balance, 900);
    assert_eq!(ctx.vault_token_account.balance, 150);
    assert_eq!(ev.amount, 100);
    assert_eq!(ev.recipient, GOOD_RECIPIENT);
    assert!(ev.sender.addr_eq(&user));
}

#[test]
fn zero_amount_lock_is_a_permitted_degenerate_event() {
    let mint = key(1, 1);
    let user = key(2, 2);
    let mut ctx = ctx_for(&mint, &user, 1000, 50);
    let ev = lock_tokens(&mut ctx, 0, String::from(GOOD_RECIPIENT)).unwrap();
    assert_eq!(ctx.user_token_account.balance, 1000);
    assert_eq!(ctx.vault_token_account.balance, 50);
    assert_eq!(ev.amount, 0);
}

#[test]
fn invalid_recipient_is_refused_with_no_balance_change() {
    let mint = key(1, 1);
    let user = key(2, 2);
    let mut ctx = ctx_for(&mint, &user, 1000, 50);
    let r = lock_tokens(
        &mut ctx,
        100,
        String::from("0xZZZZZZZZZZZZZZZZZZZZZZZZZZZZZZZZZZZZZZZZ"),
    );
    assert!(matches!(r, Err(LockError::InvalidRecipient)));
    assert_eq!(ctx.user_token_account.balance, 1000);
    assert_eq!(ctx.vault_token_account.balance, 50);
}

#[test]
fn source_account_of_another_asset_is_refused() {
    let mint = key(1, 1);
    let user = key(2, 2);
    let mut ctx = ctx_for(&mint, &user, 1000, 50);
    ctx.user_token_account.mint = key(3, 3);
    let r = lock_tokens(&mut ctx, 100, String::from(GOOD_RECIPIENT));
    assert!(matches!(r, Err(LockError::InvalidMint)));
    assert_eq!(ctx.vault_token_account.balance, 50);
}

#[test]
fn source_account_owned_by_someone_else_is_refused() {
    let mint = key(1, 1);
    let user = key(2, 2);
    let other = key(7, 7);
    let mut ctx = ctx_for(&mint, &user, 1000, 50);
    ctx.user_token_account.owner = other;
    let r = lock_tokens(&mut ctx, 100, String::from(GOOD_RECIPIENT));
    assert!(matches!(r, Err(LockError::InvalidOwner)));
    assert_eq!(ctx.user_token_account.balance, 1000);
    assert_eq!(ctx.vault_token_account.balance, 50);
}

#[test]
fn vault_account_of_another_asset_is_refused() {
    let mint = key(1, 1);
    let user = key(2, 2);
    let mut ctx = ctx_for(&mint, &user, 1000, 50);
    ctx.vault_token_account.mint = key(3, 3);
    let r = lock_tokens(&mut ctx, 100, String::from(GOOD_RECIPIENT));
    assert!(matches!(r, Err(LockError::InvalidMint)));
    assert_eq!(ctx.vault_token_account.balance, 50);
}

#[test]
fn vault_bound_to_another_assets_authority_is_refused() {
    let mint_x = key(1, 1);
    let mint_y = key(4, 4);
    let user = key(2, 2);
    let mut ctx = ctx_for(&mint_x, &user, 1000, 50);
    ctx.vault_token_account.owner = vault_authority(&mint_y);
    let r = lock_tokens(&mut ctx, 100, String::from(GOOD_RECIPIENT));
    assert!(matches!(r, Err(LockError::InvalidVault)));
    assert_eq!(ctx.user_token_account.balance, 1000);
    assert_eq!(ctx.vault_token_account.balance, 50);
}

#[test]
fn insufficient_source_balance_surfaces_the_ledger_error() {
    let mint = key(1, 1);
    let user = key(2, 2);
    let mut ctx = ctx_for(&mint, &user, 99, 50);
    let r = lock_tokens(&mut ctx, 100, String::from(GOOD_RECIPIENT));
    assert!(matches!(r, Err(LockError::Ledger(LedgerError::InsufficientFunds))));
    assert_eq!(ctx.user_token_account.balance, 99);
    assert_eq!(ctx.vault_token_account.balance, 50);
}

#[test]
fn vault_balance_overflow_surfaces_the_ledger_error() {
    let mint = key(1, 1);
    let user = key(2, 2);
    let mut ctx = ctx_for(&mint, &user, 1000, u64::MAX);
    let r = lock_tokens(&mut ctx, 1, String::from(GOOD_RECIPIENT));
    assert!(matches!(r, Err(LockError::Ledger(LedgerError::BalanceOverflow))));
    assert_eq!(ctx.user_token_account.balance, 1000);
    assert_eq!(ctx.vault_token_account.balance, u64::MAX);
}

#[test]
fn ledger_transfer_moves_funds_under_the_owners_authority() {
    let mint = key(1, 1);
    let alice = key(2, 2);
    let bob = key(3, 3);
    let mut from = TokenAccount { mint: mint.clone(), owner: alice.clone(), balance: 70 };
    let mut to = TokenAccount { mint: mint.clone(), owner: bob, balance: 5 };
    let r = transfer(&mut from, &mut to, 70, &alice);
    assert!(matches!(r, Ok(())));
    assert_eq!(from.balance, 0);
    assert_eq!(to.balance, 75);
}

#[test]
fn ledger_transfer_refuses_a_foreign_authority() {
    let mint = key(1, 1);
    let alice = key(2, 2);
    let eve = key(6, 6);
    let mut from = TokenAccount { mint: mint.clone(), owner: alice, balance: 70 };
    let mut to = TokenAccount { mint: mint.clone(), owner: key(3, 3), balance: 5 };
    let r = transfer(&mut from, &mut to, 10, &eve);
    assert!(matches!(r, Err(LedgerError::BadAuthority)));
    assert_eq!(from.balance, 70);
    assert_eq!(to.balance, 5);
}

#[test]
fn ledger_transfer_refuses_mismatched_assets() {
    let alice = key(2, 2);
    let mut from = TokenAccount { mint: key(1, 1), owner: alice.clone(), balance: 70 };
    let mut to = TokenAccount { mint: key(9, 9), owner: key(3, 3), balance: 5 };
    let r = transfer(&mut from, &mut to, 10, &alice);
    assert!(matches!(r, Err(LedgerError::MintMismatch)));
    assert_eq!(from.balance, 70);
    assert_eq!(to.balance, 5);
}
