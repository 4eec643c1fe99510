//! The lock registry: one entry and one vault ledger account per asset.
//!
//! The registry models the storage-allocation layer the escrow sits on: a
//! record's address is derived from the asset it governs, so allocation acts
//! like a map that refuses a second record for the same key. `initialize`
//! creates the entry and its bound vault exactly once per asset; the entry
//! is never mutated afterwards, and the vault stays bound to the vault
//! authority derived from that entry for the system's lifetime.

use crate::addr::{spec_vault_authority, vault_authority, Address, Pubkey};
use crate::ledger::TokenAccount;
use crate::lock::{lock_step, lock_tokens, LockAccount, LockError, LockTokens, TokensLocked};
use vstd::pervasive::VecAdditionalExecFns;
use vstd::prelude::*;

verus! {

/// The accounts an `initialize` call consumes.
#[derive(Debug)]
pub struct Initialize {
    /// The identity that funds the storage of the new records.
    pub payer: Address,
    /// Whether the payer covers the storage cost of the two new records;
    /// decided by the hosting environment, not by this logic.
    pub payer_funded: bool,
    /// The asset to set a registry entry up for.
    pub mint: Address,
}

/// The persistent records of the escrow: entry `i` governs the asset
/// `entries[i].mint`, and `vaults[i]` is the one vault ledger account bound
/// to it.
#[derive(Debug)]
pub struct Registry {
    /// The registry entries, one per initialized asset.
    pub entries: Vec<LockAccount>,
    /// The vault ledger accounts, aligned with `entries`.
    pub vaults: Vec<TokenAccount>,
}

impl Registry {
    /// Whether an entry for `mint` exists.
    pub open spec fn spec_has_entry(self, mint: Address) -> bool {
        exists|i: int| 0 <= i < self.entries@.len() && (#[trigger] self.entries@[i]).mint == mint
    }

    /// Well-formedness: entries and vaults are aligned, at most one entry
    /// exists per asset, and each vault holds its entry's asset under the
    /// vault authority derived from that entry.
    pub open spec fn wf(self) -> bool {
        &&& self.vaults@.len() == self.entries@.len()
        &&& forall|i: int, j: int|
            0 <= i < self.entries@.len() && 0 <= j < self.entries@.len() && i != j
                ==> (#[trigger] self.entries@[i]).mint != (#[trigger] self.entries@[j]).mint
        &&& forall|i: int|
            0 <= i < self.entries@.len() ==> (#[trigger] self.vaults@[i]).mint
                == self.entries@[i].mint && self.vaults@[i].owner == spec_vault_authority(
                self.entries@[i].mint,
            )
    }

    /// An empty registry: no asset is initialized yet.
    pub fn new() -> (r: Registry)
        ensures
            r.wf(),
            r.entries@.len() == 0,
            r.vaults@.len() == 0,
    {
        Registry { entries: Vec::new(), vaults: Vec::new() }
    }

    /// The index of the entry governing `mint`, if one exists.
    pub fn find_entry(&self, mint: &Address) -> (r: Option<usize>)
        ensures
            (r matches Some(i) ==> i < self.entries@.len() && self.entries@[i as int].mint
                == *mint),
            r is None ==> !self.spec_has_entry(*mint),
    {
        let mut i: usize = 0;
        while i < self.entries.len()
            invariant
                i <= self.entries@.len(),
                forall|j: int| 0 <= j < i ==> (#[trigger] self.entries@[j]).mint != *mint,
            decreases self.entries@.len() - i,
        {
            if self.entries[i].mint.addr_eq(mint) {
                return Some(i);
            }
            i = i + 1;
        }
        None
    }

    /// The index of the entry governing `mint`; meaningful only when such an
    /// entry exists, and unique then by well-formedness.
    pub open spec fn spec_entry_index(self, mint: Address) -> int {
        choose|i: int| 0 <= i < self.entries@.len() && (#[trigger] self.entries@[i]).mint == mint
    }

    /// The lock context assembled from the records held here for `mint`,
    /// together with the caller's identity and source account.
    pub open spec fn spec_lock_ctx(self, user: Address, src: TokenAccount, mint: Address) -> LockTokens {
        LockTokens {
            user,
            lock_account: self.entries@[self.spec_entry_index(mint)],
            user_token_account: src,
            vault_token_account: self.vaults@[self.spec_entry_index(mint)],
        }
    }

    /// Locks `amount` of `mint` into the vault held here, for `recipient`:
    /// the stateful face of `lock_tokens` for callers that address an
    /// initialized asset rather than passing the vault themselves. Every
    /// record but the asset's own vault is left untouched, and that vault
    /// and the caller's source account change exactly as `lock_step` says.
    pub fn lock(
        &mut self,
        user: &Address,
        user_token_account: &mut TokenAccount,
        mint: &Address,
        amount: u64,
        recipient: String,
    ) -> (r: Result<TokensLocked, LockError>)
        requires
            old(self).wf(),
            old(self).spec_has_entry(*mint),
        ensures
            final(self).wf(),
            final(self).entries@ == old(self).entries@,
            final(self).vaults@.len() == old(self).vaults@.len(),
            forall|j: int|
                0 <= j < old(self).vaults@.len() && j != old(self).spec_entry_index(*mint)
                    ==> final(self).vaults@[j] == old(self).vaults@[j],
            lock_step(
                old(self).spec_lock_ctx(*user, *old(user_token_account), *mint),
                amount,
                recipient@,
                final(self).spec_lock_ctx(*user, *final(user_token_account), *mint),
                r,
            ),
    {
        let found = self.find_entry(mint);
        let i: usize;
        match found {
            Some(k) => {
                i = k;
            },
            None => {
                // unreachable: an entry for the asset exists
                proof {
                    assert(false);
                }
                return Err(LockError::InvalidMint);
            },
        }
        proof {
            let j = old(self).spec_entry_index(*mint);
            assert(0 <= j < old(self).entries@.len() && old(self).entries@[j].mint == *mint);
            assert(j == i as int);
        }
        // Take the vault and the source account out of their slots, leaving
        // placeholders, so the core operation can own both.
        let mut vault = placeholder_account();
        self.vaults.set_and_swap(i, &mut vault);
        let mut source = placeholder_account();
        core::mem::swap(user_token_account, &mut source);
        let mut ctx = LockTokens {
            user: user.clone(),
            lock_account: LockAccount { mint: self.entries[i].mint.clone() },
            user_token_account: source,
            vault_token_account: vault,
        };
        let r = lock_tokens(&mut ctx, amount, recipient);
        let LockTokens { user_token_account: new_source, vault_token_account: new_vault, .. } =
            ctx;
        *user_token_account = new_source;
        self.vaults.set(i, new_vault);
        r
    }

    /// The balance held in the vault for `mint`, if the asset is initialized.
    pub fn vault_balance(&self, mint: &Address) -> (r: Option<u64>)
        requires
            self.wf(),
        ensures
            r is Some <==> self.spec_has_entry(*mint),
            (r matches Some(b) ==> exists|i: int|
                0 <= i < self.entries@.len() && (#[trigger] self.entries@[i]).mint == *mint
                    && self.vaults@[i].balance == b),
    {
        match self.find_entry(mint) {
            Some(i) => Some(self.vaults[i].balance),
            None => None,
        }
    }
}


/// An inert account used to fill a slot while its real value is moved
/// through the core lock operation.
fn placeholder_account() -> TokenAccount {
    TokenAccount {
        mint: Address::Key { id: Pubkey { hi: 0, lo: 0 } },
        owner: Address::Key { id: Pubkey { hi: 0, lo: 0 } },
        balance: 0,
    }
}

/// The exact effect of `initialize` on a registry: what the call returns and
/// how the records change, as a relation between the state before (`pre`)
/// and after (`post`).
pub open spec fn init_step(
    pre: Registry,
    ctx: Initialize,
    post: Registry,
    r: Result<(), LockError>,
) -> bool {
    if pre.spec_has_entry(ctx.mint) {
        r == Err::<(), LockError>(LockError::AlreadyInitialized) && post.entries@ == pre.entries@
            && post.vaults@ == pre.vaults@
    } else if !ctx.payer_funded {
        r == Err::<(), LockError>(LockError::AllocationFailed) && post.entries@ == pre.entries@
            && post.vaults@ == pre.vaults@
    } else {
        r == Ok::<(), LockError>(()) && post.entries@ == pre.entries@.push(
            LockAccount { mint: ctx.mint },
        ) && post.vaults@ == pre.vaults@.push(
            TokenAccount {
                mint: ctx.mint,
                owner: spec_vault_authority(ctx.mint),
                balance: 0u64,
            },
        )
    }
}

/// One-time setup for an asset: allocates the registry entry at its derived
/// address and the vault ledger account owned by the derived vault
/// authority, with an empty balance. Refused with `AlreadyInitialized` when
/// an entry for the asset exists — the derived address collides — and with
/// `AllocationFailed` when the payer cannot fund the storage; in both cases
/// nothing changes.
pub fn initialize(registry: &mut Registry, ctx: Initialize) -> (r: Result<(), LockError>)
    requires
        old(registry).wf(),
    ensures
        final(registry).wf(),
        init_step(*old(registry), ctx, *final(registry), r),
        r is Ok ==> final(registry).spec_has_entry(ctx.mint),
        r is Err ==> final(registry).spec_has_entry(ctx.mint) == old(registry).spec_has_entry(
            ctx.mint,
        ),
{
    match registry.find_entry(&ctx.mint) {
        Some(_) => Err(LockError::AlreadyInitialized),
        None => {
            if !ctx.payer_funded {
                return Err(LockError::AllocationFailed);
            }
            let owner = vault_authority(&ctx.mint);
            let vault = TokenAccount { mint: ctx.mint.clone(), owner, balance: 0 };
            registry.entries.push(LockAccount { mint: ctx.mint });
            registry.vaults.push(vault);
            proof {
                assert(registry.entries@[registry.entries@.len() - 1].mint == ctx.mint);
            }
            Ok(())
        },
    }
}

/// Initializing the same asset twice: whatever the second call's funding,
/// it is refused with `AlreadyInitialized` and leaves every record — the
/// vault ledger account included — exactly as the first call left it.
pub proof fn lemma_initialize_twice(
    pre: Registry,
    mid: Registry,
    post: Registry,
    ctx1: Initialize,
    ctx2: Initialize,
    r2: Result<(), LockError>,
)
    requires
        ctx1.mint == ctx2.mint,
        init_step(pre, ctx1, mid, Ok::<(), LockError>(())),
        init_step(mid, ctx2, post, r2),
    ensures
        r2 == Err::<(), LockError>(LockError::AlreadyInitialized),
        post.entries@ == mid.entries@,
        post.vaults@ == mid.vaults@,
{
    assert(mid.entries@[mid.entries@.len() - 1].mint == ctx2.mint);
}

} // verus!
