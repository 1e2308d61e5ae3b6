use vstd::prelude::*;
use vstd::string::{StrSliceExecFns, StringExecFns};
use vstd::utf8::encode_utf8;

use crate::errors::ZKSigError;
use crate::identity::{base58_of, id_eq, address_text, Identity};
use crate::verification::{check_record, valid_record};

verus! {

/// One unit of required authorization on an agreement: which agreement it
/// belongs to, an optional pre-bound signer, and whether it has been
/// consumed. A packet is signed at most once, and once a signer is bound,
/// explicitly at creation or by the first successful signature, the binding
/// never changes.
pub struct ESignaturePacket {
    pub agreement: Identity,
    pub signer: Option<Identity>,
    pub identifier: String,
    pub encrypted_cid: Option<String>,
    pub signed: bool,
}

impl ESignaturePacket {
    /// The exact message the external Ed25519 primitive must have checked
    /// for this packet: the packet's identifier and the agreement's base-58
    /// address, space-separated, as UTF-8 bytes.
    pub open spec fn expected_msg(self) -> Seq<u8> {
        encode_utf8(self.identifier@ + seq![' '] + base58_of(self.agreement@))
    }

    /// Record the packet's fields and leave it unsigned, with no encrypted
    /// payload yet.
    pub fn initialize(
        &mut self,
        agreement: Identity,
        signer: Option<Identity>,
        identifier: String,
    ) -> (r: Result<(), ZKSigError>)
        ensures
            r is Ok,
            final(self).agreement == agreement,
            final(self).signer == signer,
            final(self).identifier@ == identifier@,
            final(self).encrypted_cid is None,
            !final(self).signed,
    {
        self.agreement = agreement;
        self.signer = signer;
        self.identifier = identifier;
        self.encrypted_cid = None;
        self.signed = false;

        Ok(())
    }

    /// Build the message this packet expects a signature over.
    fn expected_message(&self) -> (r: Vec<u8>)
        ensures
            r@ == self.expected_msg(),
    {
        let addr = address_text(&self.agreement);
        let mut m = self.identifier.clone();
        m.append(" ");
        m.append(addr.as_str());
        proof {
            reveal_strlit(" ");
            assert(" "@ =~= seq![' ']);
            assert(m@ =~= self.identifier@ + seq![' '] + base58_of(self.agreement@));
        }
        m.as_str().as_bytes_vec()
    }

    /// Cross-check a verification record against this packet: it must prove
    /// that `owner`'s key signed exactly this packet's expected message with
    /// exactly the caller-supplied `signature`. All-or-nothing: any header
    /// or payload mismatch is a verification failure.
    pub fn verify_signature(
        &self,
        verify_data: &[u8],
        owner: Identity,
        signature: &[u8],
    ) -> (r: Result<(), ZKSigError>)
        ensures
            r is Ok <==> valid_record(verify_data@, owner@, signature@, self.expected_msg()),
            r is Err ==> r == Err::<(), ZKSigError>(ZKSigError::SignatureVerificationError),
    {
        let msg = self.expected_message();
        if check_record(verify_data, &owner.bytes, signature, msg.as_slice()) {
            Ok(())
        } else {
            Err(ZKSigError::SignatureVerificationError)
        }
    }

    /// Consume the packet for `signer`, storing the signature-specific
    /// encrypted payload. A consumed packet rejects every further attempt;
    /// an unbound packet binds permanently to its first signer; a bound
    /// packet accepts only the bound identity.
    pub fn sign(&mut self, signer: Identity, encrypted_cid: String) -> (r: Result<
        (),
        ZKSigError,
    >)
        ensures
            r is Ok <==> !old(self).signed && (old(self).signer is None || old(self).signer
                == Some(signer)),
            old(self).signed ==> r == Err::<(), ZKSigError>(ZKSigError::UsedConstraint),
            !old(self).signed && !(old(self).signer is None || old(self).signer == Some(signer))
                ==> r == Err::<(), ZKSigError>(ZKSigError::MismatchedSigner),
            r is Ok ==> {
                &&& final(self).signed
                &&& final(self).signer == Some(signer)
                &&& final(self).encrypted_cid matches Some(c) && c@ == encrypted_cid@
                &&& final(self).agreement == old(self).agreement
                &&& final(self).identifier@ == old(self).identifier@
            },
            r is Err ==> *final(self) == *old(self),
            final(self).agreement == old(self).agreement,
            final(self).identifier@ == old(self).identifier@,
            old(self).signed ==> final(self).signed,
            old(self).signer is Some ==> final(self).signer == old(self).signer,
    {
        if self.signed {
            return Err(ZKSigError::UsedConstraint);
        }
        match &self.signer {
            None => {
                self.signer = Some(signer);
            },
            Some(bound) => {
                if !id_eq(bound, &signer) {
                    return Err(ZKSigError::MismatchedSigner);
                }
            },
        }

        self.encrypted_cid = Some(encrypted_cid);
        self.signed = true;

        Ok(())
    }
}

} // verus!
