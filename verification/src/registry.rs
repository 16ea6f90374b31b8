use vstd::prelude::*;
use crate::types::AccountId;

verus! {

/// A single-write identity record keyed by the owner's identity: who
/// registered it, which mint it concerns, when it was created, the record's
/// derivation tag, and an optional opaque hash (all zeroes when unused).
/// There is no read or update path in the core.
#[derive(Clone, Copy, Debug, PartialEq, Eq)]
pub struct RegistryEntry {
    pub admin: AccountId,
    pub owner_wallet: AccountId,
    pub mint: AccountId,
    pub created_slot: u64,
    pub bump: u8,
    pub kyc_hash: [u8; 32],
}

/// The identities a registration is written over.
#[derive(Clone, Copy, Debug)]
pub struct RegisterUser {
    pub admin: AccountId,
    pub owner_wallet: AccountId,
    pub mint: AccountId,
    pub bump: u8,
}

/// Assembles the registration record. The creation marker is whatever clock
/// reading the host supplies; the host stores the record keyed by the owner's
/// identity.
pub fn handler_register_user(
    accounts: &RegisterUser,
    created_slot: u64,
    kyc_hash: [u8; 32],
) -> (r: RegistryEntry)
    ensures
        r.admin == accounts.admin,
        r.owner_wallet == accounts.owner_wallet,
        r.mint == accounts.mint,
        r.created_slot == created_slot,
        r.bump == accounts.bump,
        r.kyc_hash == kyc_hash,
{
    RegistryEntry {
        admin: accounts.admin,
        owner_wallet: accounts.owner_wallet,
        mint: accounts.mint,
        created_slot,
        bump: accounts.bump,
        kyc_hash,
    }
}

/// The registration entry point; it only forwards to the handler.
pub fn register_user(accounts: &RegisterUser, created_slot: u64, kyc_hash: [u8; 32]) -> (r:
    RegistryEntry)
    ensures
        r.admin == accounts.admin,
        r.owner_wallet == accounts.owner_wallet,
        r.mint == accounts.mint,
        r.created_slot == created_slot,
        r.bump == accounts.bump,
        r.kyc_hash == kyc_hash,
{
    handler_register_user(accounts, created_slot, kyc_hash)
}

} // verus!
