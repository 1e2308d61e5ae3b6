use vstd::prelude::*;

use crate::agreement::{status_step_ok, Agreement, AgreementStatus};
use crate::errors::ZKSigError;
use crate::identity::Identity;
use crate::packet::ESignaturePacket;
use crate::profile::Profile;
use crate::verification::valid_record;

verus! {

/// Create an agreement under a profile as one logical operation: take the
/// profile's next agreement sequence number and set up the agreement record
/// itself, pending and unsigned.
pub fn initialize_agreement(
    profile: &mut Profile,
    agreement: &mut Agreement,
    profile_address: Identity,
    identifier: String,
    cid: String,
    encrypted_cid: String,
    description_cid: String,
    total_packets: u8,
) -> (r: Result<(), ZKSigError>)
    requires
        old(profile).agreements_count < u32::MAX,
    ensures
        r is Ok,
        final(profile).agreements_count == old(profile).agreements_count + 1,
        final(profile).signatures_count == old(profile).signatures_count,
        final(profile).owner == old(profile).owner,
        final(agreement).profile == profile_address,
        final(agreement).identifier@ == identifier@,
        final(agreement).cid@ == cid@,
        final(agreement).encrypted_cid@ == encrypted_cid@,
        final(agreement).description_cid@ == description_cid@,
        final(agreement).status is PENDING,
        final(agreement).signed_packets == 0,
        final(agreement).total_packets == total_packets,
        total_packets > 0 ==> final(agreement).inv(),
{
    profile.add_agreement();
    agreement.setup(profile_address, identifier, cid, encrypted_cid, description_cid, total_packets)
}

/// Sign one packet of an agreement as a single all-or-nothing operation:
/// cross-check the verification record, consume the packet for `signer`,
/// count the signature on the agreement (completing it when it was the last
/// one), and bump the signer profile's counter. On any failure the typed
/// error is returned and none of the three records has changed.
///
/// `owner` is the claimed key the record must attest, `signer` the identity
/// the packet is consumed for. The failure checked first wins: a bad record,
/// then a non-pending agreement, then a consumed packet, then a signer
/// mismatch.
pub fn sign_signature_packet(
    packet: &mut ESignaturePacket,
    agreement: &mut Agreement,
    profile: &mut Profile,
    owner: Identity,
    signature: &[u8],
    verify_data: &[u8],
    encrypted_cid: String,
    signer: Identity,
) -> (r: Result<(), ZKSigError>)
    requires
        old(agreement).inv(),
        old(profile).signatures_count < u32::MAX,
    ensures
        r is Ok <==> {
            &&& valid_record(verify_data@, owner@, signature@, old(packet).expected_msg())
            &&& old(agreement).status is PENDING
            &&& !old(packet).signed
            &&& (old(packet).signer is None || old(packet).signer == Some(signer))
        },
        !valid_record(verify_data@, owner@, signature@, old(packet).expected_msg()) ==> r
            == Err::<(), ZKSigError>(ZKSigError::SignatureVerificationError),
        valid_record(verify_data@, owner@, signature@, old(packet).expected_msg())
            && !(old(agreement).status is PENDING) ==> r == Err::<(), ZKSigError>(
            ZKSigError::NonPendingAgreement,
        ),
        valid_record(verify_data@, owner@, signature@, old(packet).expected_msg()) && old(agreement).status is PENDING && old(packet).signed ==> r == Err::<(), ZKSigError>(
            ZKSigError::UsedConstraint,
        ),
        valid_record(verify_data@, owner@, signature@, old(packet).expected_msg()) && old(agreement).status is PENDING && !old(packet).signed && !(old(packet).signer is None || old(packet).signer == Some(signer)) ==> r == Err::<(), ZKSigError>(ZKSigError::MismatchedSigner),
        r is Err ==> *final(packet) == *old(packet) && *final(agreement) == *old(agreement)
            && *final(profile) == *old(profile),
        r is Ok ==> {
            &&& final(packet).signed
            &&& final(packet).signer == Some(signer)
            &&& final(packet).encrypted_cid matches Some(c) && c@ == encrypted_cid@
            &&& final(packet).agreement == old(packet).agreement
            &&& final(packet).identifier@ == old(packet).identifier@
            &&& final(agreement).signed_packets == old(agreement).signed_packets + 1
            &&& final(agreement).status == (if final(agreement).signed_packets == final(agreement).total_packets {
                AgreementStatus::COMPLETE
            } else {
                AgreementStatus::PENDING
            })
            &&& final(agreement).same_metadata(*old(agreement))
            &&& final(profile).signatures_count == old(profile).signatures_count + 1
            &&& final(profile).agreements_count == old(profile).agreements_count
            &&& final(profile).owner == old(profile).owner
        },
        final(agreement).inv(),
        status_step_ok(old(agreement).status, final(agreement).status),
{
    match packet.verify_signature(verify_data, owner, signature) {
        Err(e) => {
            return Err(e);
        },
        Ok(()) => {},
    }

    // The agreement and the packet are checked before any record changes,
    // so a failure on either leaves all three records as they were.
    if !(agreement.status == AgreementStatus::PENDING) {
        return Err(ZKSigError::NonPendingAgreement);
    }

    match packet.sign(signer, encrypted_cid) {
        Err(e) => {
            return Err(e);
        },
        Ok(()) => {},
    }

    match agreement.add_signer() {
        Err(e) => {
            return Err(e);
        },
        Ok(()) => {},
    }

    profile.add_signature();

    Ok(())
}

} // verus!
