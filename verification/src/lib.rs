//! A cross-chain token lock escrow: tokens of a fungible asset are custodied
//! on the source chain inside a deterministically derived vault, and every
//! successful deposit yields a `TokensLocked` notification that a
//! destination-chain relayer can consume.
//!
//! The crate covers the escrow core: registry-entry initialization, vault
//! authority derivation, deposit validation, and the event that a lock emits.
//! Token bookkeeping beyond the single atomic transfer that a lock performs
//! (allowances, minting, burning) belongs to the token standard on either
//! chain and is outside this crate.

pub mod addr;
pub mod ledger;
pub mod lock;
pub mod recipient;
pub mod registry;
