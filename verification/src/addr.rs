//! Identities and deterministic address derivation.
//!
//! An `Address` is either an ordinary key-backed identity (a wallet key or a
//! mint identifier) or a derived identity: the deterministic image of a
//! namespace tag and a key under the derivation function. A derived identity
//! holds no secret; the only way to act as one is to hold the derivation
//! rights, so it is represented as a value that records exactly what it was
//! derived from. Derivation is injective by construction, which is the
//! collision-freedom the escrow relies on: distinct assets can never share a
//! registry entry or a vault authority.

use vstd::prelude::*;

verus! {

/// A 32-byte key identifier, held as two 128-bit halves.
#[derive(Clone, Copy, PartialEq, Eq, Structural, Debug)]
pub struct Pubkey {
    pub hi: u128,
    pub lo: u128,
}

/// Namespace tag fed to the derivation function. The two tags are disjoint,
/// so registry-entry derivation and vault-authority derivation can never
/// collide with each other for the same key.
#[derive(Clone, Copy, PartialEq, Eq, Structural, Debug)]
pub enum Tag {
    /// Namespace of registry entries: one per asset.
    Lock,
    /// Namespace of vault authorities: one per registry entry.
    Vault,
}

/// An identity in the system.
#[derive(Debug)]
pub enum Address {
    /// A key-backed identity: a wallet, a payer, or an asset's mint.
    Key { id: Pubkey },
    /// A derived identity: `derive(tag, key)`. It owns no secret; its
    /// "signature" is the derivation proof itself.
    Derived { tag: Tag, key: Box<Address> },
}

/// The derivation function as a value: deterministic and injective, so any
/// party can recompute a claimed derived address and distinct inputs never
/// collide.
pub open spec fn spec_derive(tag: Tag, key: Address) -> Address {
    Address::Derived { tag, key: Box::new(key) }
}

/// The address of the registry entry that governs `mint`: `derive(Lock, mint)`.
pub open spec fn spec_registry_address(mint: Address) -> Address {
    spec_derive(Tag::Lock, mint)
}

/// The vault authority for the asset `mint`: derived from the registry
/// entry's own address, `derive(Vault, derive(Lock, mint))`.
pub open spec fn spec_vault_authority(mint: Address) -> Address {
    spec_derive(Tag::Vault, spec_registry_address(mint))
}

impl Clone for Address {
    fn clone(&self) -> (r: Self)
        ensures
            r == *self,
        decreases *self,
    {
        match self {
            Address::Key { id } => Address::Key { id: *id },
            Address::Derived { tag, key } => Address::Derived {
                tag: *tag,
                key: Box::new((**key).clone()),
            },
        }
    }
}

impl Address {
    /// Structural equality of identities.
    pub fn addr_eq(&self, other: &Address) -> (r: bool)
        ensures
            r == (*self == *other),
        decreases *self,
    {
        match (self, other) {
            (Address::Key { id: a }, Address::Key { id: b }) => a == b,
            (
                Address::Derived { tag: ta, key: ka },
                Address::Derived { tag: tb, key: kb },
            ) => *ta == *tb && (**ka).addr_eq(&**kb),
            _ => false,
        }
    }
}

/// Computes `derive(tag, key)`.
pub fn derive_address(tag: Tag, key: &Address) -> (r: Address)
    ensures
        r == spec_derive(tag, *key),
{
    Address::Derived { tag, key: Box::new(key.clone()) }
}

/// Computes the registry-entry address for `mint`.
pub fn registry_address(mint: &Address) -> (r: Address)
    ensures
        r == spec_registry_address(*mint),
{
    derive_address(Tag::Lock, mint)
}

/// Computes the vault authority for `mint`.
pub fn vault_authority(mint: &Address) -> (r: Address)
    ensures
        r == spec_vault_authority(*mint),
{
    let entry = registry_address(mint);
    derive_address(Tag::Vault, &entry)
}

/// Derivation is injective: distinct tag/key inputs yield distinct addresses,
/// and a derived address never equals a key-backed one.
pub proof fn lemma_derive_injective(ta: Tag, ka: Address, tb: Tag, kb: Address)
    ensures
        (spec_derive(ta, ka) == spec_derive(tb, kb)) <==> (ta == tb && ka == kb),
        forall|id: Pubkey| spec_derive(ta, ka) != (Address::Key { id }),
{
}

/// Two distinct assets always have distinct vault authorities, because each
/// asset's unique registry-entry address feeds the vault derivation.
pub proof fn lemma_vault_authorities_distinct(mint_a: Address, mint_b: Address)
    requires
        mint_a != mint_b,
    ensures
        spec_vault_authority(mint_a) != spec_vault_authority(mint_b),
        spec_registry_address(mint_a) != spec_registry_address(mint_b),
{
}

} // verus!
