use vstd::prelude::*;

use crate::errors::ZKSigError;
use crate::identity::{id_eq, Identity};

verus! {

/// An index-keyed signature slot on an agreement: the same consume-once,
/// bind-once authorization unit as a signature packet, for agreements that
/// address their slots by position instead of by identifier.
pub struct SignatureConstraint {
    pub agreement: Identity,
    pub index: u8,
    pub identifier: String,
    pub signer: Option<Identity>,
    pub used: bool,
}

impl SignatureConstraint {
    /// Record the slot's fields and leave it unconsumed.
    pub fn create(
        &mut self,
        agreement: Identity,
        index: u8,
        identifier: String,
        signer: Option<Identity>,
    )
        ensures
            final(self).agreement == agreement,
            final(self).index == index,
            final(self).identifier@ == identifier@,
            final(self).signer == signer,
            !final(self).used,
    {
        self.agreement = agreement;
        self.index = index;
        self.identifier = identifier;
        self.signer = signer;
        self.used = false;
    }

    /// Consume the slot for `signer`. A consumed slot rejects every further
    /// attempt; an unbound slot binds permanently to its first signer; a
    /// bound slot accepts only the bound identity.
    pub fn use_constraint(&mut self, signer: Identity) -> (r: Result<(), ZKSigError>)
        ensures
            r is Ok <==> !old(self).used && (old(self).signer is None || old(self).signer
                == Some(signer)),
            old(self).used ==> r == Err::<(), ZKSigError>(ZKSigError::UsedConstraint),
            !old(self).used && !(old(self).signer is None || old(self).signer == Some(signer))
                ==> r == Err::<(), ZKSigError>(ZKSigError::MismatchedSigner),
            r is Ok ==> final(self).used && final(self).signer == Some(signer),
            r is Err ==> *final(self) == *old(self),
            final(self).agreement == old(self).agreement,
            final(self).index == old(self).index,
            final(self).identifier@ == old(self).identifier@,
            old(self).used ==> final(self).used,
            old(self).signer is Some ==> final(self).signer == old(self).signer,
    {
        if self.used {
            return Err(ZKSigError::UsedConstraint);
        }
        match &self.signer {
            None => {
                self.signer = Some(signer);
            },
            Some(bound) => {
                if !id_eq(bound, &signer) {
                    return Err(ZKSigError::MismatchedSigner);
                }
            },
        }

        self.used = true;

        Ok(())
    }
}

} // verus!
