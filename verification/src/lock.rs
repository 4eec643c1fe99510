//! The lock operation: validation, the vault deposit, and the emitted event.
//!
//! A deposit re-derives the vault authority for the asset, runs an ordered
//! chain of total checks over the supplied accounts, and only when every
//! check passes delegates the fund movement to the token ledger. The first
//! failing check aborts the call with no state change; on success the vault
//! gains exactly the amount, the source loses exactly the amount, and exactly
//! one `TokensLocked` event is produced.

use crate::addr::{spec_vault_authority, vault_authority, Address};
use crate::ledger::{transfer, LedgerError, TokenAccount};
use crate::recipient::{is_valid_eth_address, spec_is_valid_eth_address};
use vstd::prelude::*;

verus! {

/// The registry entry for one asset: created once, never mutated, and
/// addressed at `derive(Lock, mint)` so at most one can exist per asset.
#[derive(Debug)]
pub struct LockAccount {
    /// The asset this entry governs.
    pub mint: Address,
}

/// The notification of a successful lock, consumed by a destination-chain
/// relayer. Produced exactly once per successful call.
#[derive(Debug)]
pub struct TokensLocked {
    /// The initiator whose funds were locked.
    pub sender: Address,
    /// How much was moved into the vault.
    pub amount: u64,
    /// The destination-chain address the deposit is bound for.
    pub recipient: String,
}

/// Why an escrow call was refused. Every kind is terminal: the call aborts
/// with no state change, and retrying is the caller's business.
#[derive(Clone, Copy, PartialEq, Eq, Structural, Debug)]
pub enum LockError {
    /// A registry entry already exists for the asset.
    AlreadyInitialized,
    /// The payer cannot fund the required storage.
    AllocationFailed,
    /// A supplied ledger account's asset does not match the registry entry.
    InvalidMint,
    /// The source ledger account is not owned by the initiating identity.
    InvalidOwner,
    /// The vault ledger account's owner is not the derived vault authority.
    InvalidVault,
    /// The recipient string fails the destination-address grammar.
    InvalidRecipient,
    /// The token ledger refused the transfer; its error surfaces verbatim.
    Ledger(LedgerError),
}

/// The accounts a lock call consumes.
#[derive(Debug)]
pub struct LockTokens {
    /// The initiating identity; the transfer runs under its authority.
    pub user: Address,
    /// The registry entry for the asset being locked.
    pub lock_account: LockAccount,
    /// The initiator's source ledger account.
    pub user_token_account: TokenAccount,
    /// The vault ledger account owned by the derived vault authority.
    pub vault_token_account: TokenAccount,
}

/// The first precondition a lock call violates, if any, in the order the
/// checks run: recipient grammar, source asset, source owner, vault asset,
/// vault owner.
pub open spec fn spec_lock_check(ctx: LockTokens, recipient: Seq<char>) -> Option<LockError> {
    if !spec_is_valid_eth_address(recipient) {
        Some(LockError::InvalidRecipient)
    } else if ctx.user_token_account.mint != ctx.lock_account.mint {
        Some(LockError::InvalidMint)
    } else if ctx.user_token_account.owner != ctx.user {
        Some(LockError::InvalidOwner)
    } else if ctx.vault_token_account.mint != ctx.lock_account.mint {
        Some(LockError::InvalidMint)
    } else if ctx.vault_token_account.owner != spec_vault_authority(ctx.lock_account.mint) {
        Some(LockError::InvalidVault)
    } else {
        None
    }
}

/// Whether the ledger will accept the deposit once every lock check passed:
/// the source covers the amount and the vault balance cannot overflow.
pub open spec fn spec_deposit_fits(ctx: LockTokens, amount: u64) -> bool {
    amount <= ctx.user_token_account.balance
        && ctx.vault_token_account.balance + amount <= u64::MAX
}

/// The exact effect of a lock call: what it returns and how the accounts
/// change, as a relation between the context before (`pre`) and after
/// (`post`). Identities and asset bindings never change; the first failing
/// check determines the error and leaves everything untouched; when every
/// check passes and the deposit fits, the vault gains and the source loses
/// exactly the amount, and the one event of the call carries the initiator,
/// the amount and the recipient.
pub open spec fn lock_step(
    pre: LockTokens,
    amount: u64,
    recipient: Seq<char>,
    post: LockTokens,
    r: Result<TokensLocked, LockError>,
) -> bool {
    &&& post.user == pre.user
    &&& post.lock_account == pre.lock_account
    &&& post.user_token_account.mint == pre.user_token_account.mint
    &&& post.user_token_account.owner == pre.user_token_account.owner
    &&& post.vault_token_account.mint == pre.vault_token_account.mint
    &&& post.vault_token_account.owner == pre.vault_token_account.owner
    &&& (spec_lock_check(pre, recipient) matches Some(e) ==> (
        r == Err::<TokensLocked, LockError>(e) && post == pre
    ))
    &&& spec_lock_check(pre, recipient) is None && amount > pre.user_token_account.balance ==> (
        r == Err::<TokensLocked, LockError>(LockError::Ledger(LedgerError::InsufficientFunds))
            && post == pre
    )
    &&& spec_lock_check(pre, recipient) is None && amount <= pre.user_token_account.balance
        && pre.vault_token_account.balance + amount > u64::MAX ==> (
        r == Err::<TokensLocked, LockError>(LockError::Ledger(LedgerError::BalanceOverflow))
            && post == pre
    )
    &&& spec_lock_check(pre, recipient) is None && spec_deposit_fits(pre, amount) ==> (
        (r matches Ok(ev) ==> ev.sender == pre.user && ev.amount == amount && ev.recipient@
            == recipient)
            && r is Ok
            && post.user_token_account.balance == pre.user_token_account.balance - amount
            && post.vault_token_account.balance == pre.vault_token_account.balance + amount
    )
}

/// Locks `amount` of the registry entry's asset for `recipient`.
///
/// All five preconditions are checked before any funds move; the first
/// failure aborts with both ledger accounts unchanged. When every check
/// passes, the token ledger moves `amount` from the source account to the
/// vault atomically, and the returned `TokensLocked` event — the one event
/// of the call — carries the initiator, the amount and the recipient.
pub fn lock_tokens(ctx: &mut LockTokens, amount: u64, recipient: String) -> (r: Result<
    TokensLocked,
    LockError,
>)
    ensures
        lock_step(*old(ctx), amount, recipient@, *final(ctx), r),
{
    if !is_valid_eth_address(recipient.as_str()) {
        return Err(LockError::InvalidRecipient);
    }
    if !ctx.user_token_account.mint.addr_eq(&ctx.lock_account.mint) {
        return Err(LockError::InvalidMint);
    }
    if !ctx.user_token_account.owner.addr_eq(&ctx.user) {
        return Err(LockError::InvalidOwner);
    }
    if !ctx.vault_token_account.mint.addr_eq(&ctx.lock_account.mint) {
        return Err(LockError::InvalidMint);
    }
    let authority = vault_authority(&ctx.lock_account.mint);
    if !ctx.vault_token_account.owner.addr_eq(&authority) {
        return Err(LockError::InvalidVault);
    }
    match transfer(
        &mut ctx.user_token_account,
        &mut ctx.vault_token_account,
        amount,
        &ctx.user,
    ) {
        Ok(()) => Ok(TokensLocked { sender: ctx.user.clone(), amount, recipient }),
        Err(e) => Err(LockError::Ledger(e)),
    }
}

} // verus!
