//! The token ledger: accounts and the atomic, authority-checked transfer.
//!
//! A ledger account tracks the balance of one asset under one owner. The
//! sole mutation path is `transfer`, which moves an amount between two
//! accounts of the same asset under the source owner's authority, all or
//! nothing: on any failure both accounts are left exactly as they were.

use crate::addr::Address;
use vstd::prelude::*;

verus! {

/// A ledger account: a balance of the asset `mint` under `owner`.
#[derive(Debug)]
pub struct TokenAccount {
    /// The asset this account holds.
    pub mint: Address,
    /// The identity whose authority moves funds out of this account.
    pub owner: Address,
    /// The current balance.
    pub balance: u64,
}

/// Why a ledger transfer was refused.
#[derive(Clone, Copy, PartialEq, Eq, Structural, Debug)]
pub enum LedgerError {
    /// The given authority is not the source account's owner.
    BadAuthority,
    /// Source and destination hold different assets.
    MintMismatch,
    /// The source balance is smaller than the amount.
    InsufficientFunds,
    /// The destination balance would exceed the representable maximum.
    BalanceOverflow,
}

/// The first reason a transfer must be refused, if any.
pub open spec fn spec_transfer_check(
    from: TokenAccount,
    to: TokenAccount,
    amount: u64,
    authority: Address,
) -> Option<LedgerError> {
    if authority != from.owner {
        Some(LedgerError::BadAuthority)
    } else if from.mint != to.mint {
        Some(LedgerError::MintMismatch)
    } else if amount > from.balance {
        Some(LedgerError::InsufficientFunds)
    } else if to.balance + amount > u64::MAX {
        Some(LedgerError::BalanceOverflow)
    } else {
        None
    }
}

/// Moves `amount` from `from` to `to` under `authority`, atomically: either
/// both balances change by exactly `amount`, or neither account changes.
pub fn transfer(
    from: &mut TokenAccount,
    to: &mut TokenAccount,
    amount: u64,
    authority: &Address,
) -> (r: Result<(), LedgerError>)
    ensures
        final(from).mint == old(from).mint,
        final(from).owner == old(from).owner,
        final(to).mint == old(to).mint,
        final(to).owner == old(to).owner,
        (spec_transfer_check(*old(from), *old(to), amount, *authority) matches Some(e) ==> (
            r == Err::<(), LedgerError>(e)
                && *final(from) == *old(from)
                && *final(to) == *old(to)
        )),
        spec_transfer_check(*old(from), *old(to), amount, *authority) is None ==> (
            r == Ok::<(), LedgerError>(())
                && final(from).balance == old(from).balance - amount
                && final(to).balance == old(to).balance + amount
        ),
{
    if !authority.addr_eq(&from.owner) {
        return Err(LedgerError::BadAuthority);
    }
    if !from.mint.addr_eq(&to.mint) {
        return Err(LedgerError::MintMismatch);
    }
    if amount > from.balance {
        return Err(LedgerError::InsufficientFunds);
    }
    if amount > u64::MAX - to.balance {
        return Err(LedgerError::BalanceOverflow);
    }
    from.balance = from.balance - amount;
    to.balance = to.balance + amount;
    Ok(())
}

} // verus!
