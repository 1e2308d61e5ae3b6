use vstd::prelude::*;

use crate::errors::ZKSigError;
use crate::identity::Identity;

verus! {

/// The lifecycle of an agreement. It starts `PENDING`, becomes `COMPLETE`
/// when every required packet is signed, and ends `APPROVED` or `REJECTED`,
/// both terminal.
#[allow(non_camel_case_types)]
#[derive(Clone, Copy, Debug, PartialEq, Eq, Structural)]
pub enum AgreementStatus {
    PENDING,
    COMPLETE,
    APPROVED,
    REJECTED,
}

/// The transition table of the status machine: a status may stay where it
/// is, `PENDING` may complete, and only `COMPLETE` may be approved or
/// rejected. Every mutation of an agreement's status takes one such step.
pub open spec fn status_step_ok(pre: AgreementStatus, post: AgreementStatus) -> bool {
    match (pre, post) {
        (AgreementStatus::PENDING, AgreementStatus::PENDING) => true,
        (AgreementStatus::PENDING, AgreementStatus::COMPLETE) => true,
        (AgreementStatus::COMPLETE, AgreementStatus::COMPLETE) => true,
        (AgreementStatus::COMPLETE, AgreementStatus::APPROVED) => true,
        (AgreementStatus::COMPLETE, AgreementStatus::REJECTED) => true,
        (AgreementStatus::APPROVED, AgreementStatus::APPROVED) => true,
        (AgreementStatus::REJECTED, AgreementStatus::REJECTED) => true,
        _ => false,
    }
}

/// How far along the lifecycle a status is; a step never lowers it.
pub open spec fn status_rank(s: AgreementStatus) -> int {
    match s {
        AgreementStatus::PENDING => 0,
        AgreementStatus::COMPLETE => 1,
        AgreementStatus::APPROVED => 2,
        AgreementStatus::REJECTED => 2,
    }
}

/// Law: the status machine never moves backward: every allowed step keeps
/// the rank of the status or raises it.
pub proof fn lemma_step_never_backward(pre: AgreementStatus, post: AgreementStatus)
    requires
        status_step_ok(pre, post),
    ensures
        status_rank(pre) <= status_rank(post),
{
}

/// Law: `APPROVED` and `REJECTED` are terminal: no allowed step leaves them.
pub proof fn lemma_terminal_is_final(pre: AgreementStatus, post: AgreementStatus)
    requires
        pre is APPROVED || pre is REJECTED,
        status_step_ok(pre, post),
    ensures
        post == pre,
{
}

/// Law: no step skips `COMPLETE`: a pending agreement cannot be approved or
/// rejected in one step.
pub proof fn lemma_no_skip_past_complete(pre: AgreementStatus, post: AgreementStatus)
    requires
        pre is PENDING,
        status_step_ok(pre, post),
    ensures
        post is PENDING || post is COMPLETE,
{
}

/// The aggregate workflow record for one document: who originated it, the
/// opaque content references, and how many of its required signature
/// packets have been signed so far.
pub struct Agreement {
    pub profile: Identity,
    pub identifier: String,
    pub cid: String,
    pub encrypted_cid: String,
    pub description_cid: String,
    pub status: AgreementStatus,
    pub signed_packets: u8,
    pub total_packets: u8,
}

impl Agreement {
    /// The counter never exceeds its target, and a pending agreement always
    /// has room left: the next signature can at most complete it. Holds for
    /// every agreement set up with at least one required packet.
    pub open spec fn inv(self) -> bool {
        &&& self.signed_packets <= self.total_packets
        &&& self.status is PENDING ==> self.signed_packets < self.total_packets
    }

    /// Everything that `add_signer`, `approve` and `reject` leave untouched.
    pub open spec fn same_metadata(self, other: Agreement) -> bool {
        &&& self.profile == other.profile
        &&& self.identifier@ == other.identifier@
        &&& self.cid@ == other.cid@
        &&& self.encrypted_cid@ == other.encrypted_cid@
        &&& self.description_cid@ == other.description_cid@
        &&& self.total_packets == other.total_packets
    }

    /// Record the agreement's fields and start its lifecycle: pending, with
    /// no packet signed yet.
    pub fn setup(
        &mut self,
        profile: Identity,
        identifier: String,
        cid: String,
        encrypted_cid: String,
        description_cid: String,
        total_packets: u8,
    ) -> (r: Result<(), ZKSigError>)
        ensures
            r is Ok,
            final(self).profile == profile,
            final(self).identifier@ == identifier@,
            final(self).cid@ == cid@,
            final(self).encrypted_cid@ == encrypted_cid@,
            final(self).description_cid@ == description_cid@,
            final(self).status is PENDING,
            final(self).signed_packets == 0,
            final(self).total_packets == total_packets,
            total_packets > 0 ==> final(self).inv(),
    {
        self.profile = profile;
        self.identifier = identifier;
        self.cid = cid;
        self.encrypted_cid = encrypted_cid;
        self.description_cid = description_cid;
        self.status = AgreementStatus::PENDING;
        self.signed_packets = 0;
        self.total_packets = total_packets;

        Ok(())
    }

    /// Count one more signed packet. Only a pending agreement accepts it,
    /// and the increment that reaches the target completes the agreement in
    /// the same step: no state with a full counter is ever still pending.
    pub fn add_signer(&mut self) -> (r: Result<(), ZKSigError>)
        requires
            old(self).inv(),
        ensures
            final(self).inv(),
            r is Ok <==> old(self).status is PENDING,
            r is Ok ==> {
                &&& final(self).signed_packets == old(self).signed_packets + 1
                &&& final(self).status == (if final(self).signed_packets
                    == final(self).total_packets {
                    AgreementStatus::COMPLETE
                } else {
                    AgreementStatus::PENDING
                })
            },
            r is Err ==> r == Err::<(), ZKSigError>(ZKSigError::NonPendingAgreement)
                && *final(self) == *old(self),
            final(self).same_metadata(*old(self)),
            final(self).signed_packets >= old(self).signed_packets,
            status_step_ok(old(self).status, final(self).status),
    {
        if !(self.status == AgreementStatus::PENDING) {
            return Err(ZKSigError::NonPendingAgreement);
        }

        self.signed_packets = self.signed_packets + 1;
        if self.signed_packets == self.total_packets {
            self.status = AgreementStatus::COMPLETE;
        }

        Ok(())
    }

    /// Settle a completed agreement as approved. Fails, changing nothing,
    /// from any other status.
    pub fn approve(&mut self) -> (r: Result<(), ZKSigError>)
        ensures
            r is Ok <==> old(self).status is COMPLETE,
            r is Ok ==> final(self).status is APPROVED,
            r is Err ==> r == Err::<(), ZKSigError>(ZKSigError::NonPendingAgreement)
                && *final(self) == *old(self),
            final(self).same_metadata(*old(self)),
            final(self).signed_packets == old(self).signed_packets,
            old(self).inv() ==> final(self).inv(),
            status_step_ok(old(self).status, final(self).status),
    {
        if !(self.status == AgreementStatus::COMPLETE) {
            return Err(ZKSigError::NonPendingAgreement);
        }

        self.status = AgreementStatus::APPROVED;

        Ok(())
    }

    /// Settle a completed agreement as rejected. Fails, changing nothing,
    /// from any other status.
    pub fn reject(&mut self) -> (r: Result<(), ZKSigError>)
        ensures
            r is Ok <==> old(self).status is COMPLETE,
            r is Ok ==> final(self).status is REJECTED,
            r is Err ==> r == Err::<(), ZKSigError>(ZKSigError::NonPendingAgreement)
                && *final(self) == *old(self),
            final(self).same_metadata(*old(self)),
            final(self).signed_packets == old(self).signed_packets,
            old(self).inv() ==> final(self).inv(),
            status_step_ok(old(self).status, final(self).status),
    {
        if !(self.status == AgreementStatus::COMPLETE) {
            return Err(ZKSigError::NonPendingAgreement);
        }

        self.status = AgreementStatus::REJECTED;

        Ok(())
    }
}

} // verus!
