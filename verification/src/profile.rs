use vstd::prelude::*;

use crate::errors::ZKSigError;
use crate::identity::Identity;

verus! {

/// Per-party counters. They only ever grow, and exist to hand out stable
/// sequence numbers when the store names a party's next agreement or
/// signature record; they carry no validation logic of their own.
pub struct Profile {
    pub owner: Identity,
    pub agreements_count: u32,
    pub signatures_count: u32,
}

impl Profile {
    /// Record the owning party and start both counters at zero.
    pub fn initialize(&mut self, owner: Identity) -> (r: Result<(), ZKSigError>)
        ensures
            r is Ok,
            final(self).owner == owner,
            final(self).agreements_count == 0,
            final(self).signatures_count == 0,
    {
        self.owner = owner;
        self.agreements_count = 0;
        self.signatures_count = 0;

        Ok(())
    }

    /// Count one more agreement created under this profile.
    pub fn add_agreement(&mut self)
        requires
            old(self).agreements_count < u32::MAX,
        ensures
            final(self).agreements_count == old(self).agreements_count + 1,
            final(self).signatures_count == old(self).signatures_count,
            final(self).owner == old(self).owner,
    {
        self.agreements_count = self.agreements_count + 1;
    }

    /// Count one more signature made by this profile's owner.
    pub fn add_signature(&mut self)
        requires
            old(self).signatures_count < u32::MAX,
        ensures
            final(self).signatures_count == old(self).signatures_count + 1,
            final(self).agreements_count == old(self).agreements_count,
            final(self).owner == old(self).owner,
    {
        self.signatures_count = self.signatures_count + 1;
    }
}

} // verus!
