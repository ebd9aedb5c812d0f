//! Opaque 32-byte account identities.
//!
//! Entities refer to one another by identity, never by owning reference: the
//! global state names its vaults, markets table and logs, a user names its
//! position set, a record names the accounts it concerns. An identity is
//! only ever compared for equality; the all-zero identity means "not set".

use vstd::prelude::*;

verus! {

/// An opaque 32-byte identity, held as two 128-bit halves.
#[derive(Clone, Copy, Debug, PartialEq, Eq, Structural)]
pub struct AccountKey {
    /// High 16 bytes of the identity.
    pub hi: u128,
    /// Low 16 bytes of the identity.
    pub lo: u128,
}

impl AccountKey {
    /// True of the all-zero identity, the "not set" marker.
    pub open spec fn spec_is_zero(self) -> bool {
        self.hi == 0 && self.lo == 0
    }

    /// Builds an identity from its two halves.
    pub fn new(hi: u128, lo: u128) -> (r: AccountKey)
        ensures
            r == (AccountKey { hi, lo }),
    {
        AccountKey { hi, lo }
    }

    /// Reports whether this is the all-zero "not set" identity.
    pub fn is_zero(&self) -> (r: bool)
        ensures
            r == self.spec_is_zero(),
    {
        self.hi == 0 && self.lo == 0
    }
}

impl Default for AccountKey {
    /// The all-zero identity.
    fn default() -> (r: AccountKey)
        ensures
            r.spec_is_zero(),
    {
        AccountKey { hi: 0, lo: 0 }
    }
}

} // verus!
