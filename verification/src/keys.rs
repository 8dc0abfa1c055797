use vstd::prelude::*;

verus! {

/// A 32-byte identifier for a principal, a storage slot, a mint or a token
/// account, held as four little-endian 64-bit words (word 0 first).
#[derive(Clone, Copy, PartialEq, Eq, Structural, Debug)]
pub struct AccountId {
    pub w0: u64,
    pub w1: u64,
    pub w2: u64,
    pub w3: u64,
}

impl AccountId {
    /// Builds an identifier from its four 64-bit words.
    pub fn from_words(w0: u64, w1: u64, w2: u64, w3: u64) -> (r: AccountId)
        ensures
            r == (AccountId { w0, w1, w2, w3 }),
    {
        AccountId { w0, w1, w2, w3 }
    }
}

/// The well-known identity this registry is deployed under: process-wide
/// configuration fixed at deployment time and referenced read-only.
pub open spec fn spec_declared_id() -> AccountId {
    AccountId {
        w0: 0xfc0db265ce0a1078,
        w1: 0x558a6aaca9a0df91,
        w2: 0x212faa45058c770a,
        w3: 0x421dcb26379e446c,
    }
}

/// Returns the registry's declared deployment identity.
pub fn declared_id() -> (r: AccountId)
    ensures
        r == spec_declared_id(),
{
    AccountId {
        w0: 0xfc0db265ce0a1078,
        w1: 0x558a6aaca9a0df91,
        w2: 0x212faa45058c770a,
        w3: 0x421dcb26379e446c,
    }
}

} // verus!
