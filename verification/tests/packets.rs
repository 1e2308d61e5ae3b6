use anchor_lang::prelude::Pubkey;
use e_signature::errors::ZKSigError;
use e_signature::identity::Identity;
use e_signature::packet::ESignaturePacket;

fn id(tag: u8) -> Identity {
    Identity { bytes: [tag; 32] }
}

fn blank(agreement: Identity) -> ESignaturePacket {
    ESignaturePacket {
        agreement,
        signer: None,
        identifier: String::new(),
        encrypted_cid: None,
        signed: false,
    }
}

fn packet(agreement: Identity, signer: Option<Identity>, identifier: &str) -> ESignaturePacket {
    let mut p = blank(agreement);
    p.initialize(agreement, signer, identifier.to_string()).unwrap();
    p
}

/// The message a packet expects a signature over: its identifier and the
/// agreement address in base-58, space-separated.
fn message_for(identifier: &str, agreement: &Identity) -> Vec<u8> {
    format!("{} {}", identifier, Pubkey::new_from_array(agreement.bytes)).into_bytes()
}

/// A verification record in the fixed single-signature layout.
fn record(pubkey: &[u8; 32], signature: &[u8; 64], msg: &[u8]) -> Vec<u8> {
    let mut v: Vec<u8> = Vec::new();
    v.push(1);
    v.push(0);
    v.extend_from_slice(&48u16.to_le_bytes());
    v.extend_from_slice(&0xFFFFu16.to_le_bytes());
    v.extend_from_slice(&16u16.to_le_bytes());
    v.extend_from_slice(&0xFFFFu16.to_le_bytes());
    v.extend_from_slice(&112u16.to_le_bytes());
    v.extend_from_slice(&(msg.len() as u16).to_le_bytes());
    v.extend_from_slice(&0xFFFFu16.to_le_bytes());
    v.extend_from_slice(pubkey);
    v.extend_from_slice(signature);
    v.extend_from_slice(msg);
    v
}

#[test]
fn initialize_resets_packet() {
    let p = packet(id(2), Some(id(1)), "packet-7");
    assert!(p.agreement == id(2));
    assert!(p.signer == Some(id(1)));
    assert_eq!(p.identifier, "packet-7");
    assert!(p.encrypted_cid.is_none());
    assert!(!p.signed);
}

#[test]
fn prebound_packet_accepts_exactly_the_bound_signer() {
    let alice = id(1);
    let mut p = packet(id(2), Some(alice), "s1");
    assert!(p.sign(alice, "payload".to_string()).is_ok());
    assert!(p.signed);
    assert!(p.signer == Some(alice));
    assert_eq!(p.encrypted_cid.as_deref(), Some("payload"));
}

#[test]
fn prebound_packet_rejects_any_other_identity() {
    let alice = id(1);
    let mallory = id(9);
    let mut p = packet(id(2), Some(alice), "s1");
    assert_eq!(p.sign(mallory, String::new()), Err(ZKSigError::MismatchedSigner));
    assert!(!p.signed);
    assert!(p.signer == Some(alice));
    assert!(p.encrypted_cid.is_none());
}

#[test]
fn unbound_packet_binds_to_first_signer_permanently() {
    let bob = id(3);
    let carol = id(4);
    let mut p = packet(id(2), None, "s2");
    assert!(p.sign(bob, String::new()).is_ok());
    assert!(p.signer == Some(bob));
    // Even another identity never rebinds it: the slot is consumed and
    // bound to its first signer.
    let mut again = packet(id(2), None, "s2");
    again.sign(bob, String::new()).unwrap();
    assert_eq!(again.sign(carol, String::new()), Err(ZKSigError::UsedConstraint));
    assert!(again.signer == Some(bob));
}

#[test]
fn used_packet_rejects_every_signer() {
    let alice = id(1);
    let mallory = id(9);
    let mut p = packet(id(2), Some(alice), "s1");
    p.sign(alice, String::new()).unwrap();
    assert_eq!(p.sign(alice, String::new()), Err(ZKSigError::UsedConstraint));
    assert_eq!(p.sign(mallory, String::new()), Err(ZKSigError::UsedConstraint));
    assert!(p.signed);
}

#[test]
fn verify_accepts_a_record_in_the_fixed_layout() {
    let alice = id(1);
    let agreement = id(2);
    let p = packet(agreement, Some(alice), "s1");
    let msg = message_for("s1", &agreement);
    let sig = [7u8; 64];
    let rec = record(&alice.bytes, &sig, &msg);
    assert!(p.verify_signature(&rec, alice, &sig).is_ok());
}

#[test]
fn verify_rejects_one_changed_message_byte() {
    let alice = id(1);
    let agreement = id(2);
    let p = packet(agreement, Some(alice), "s1");
    let msg = message_for("s1", &agreement);
    let sig = [7u8; 64];
    let mut rec = record(&alice.bytes, &sig, &msg);
    let last = rec.len() - 1;
    rec[last] ^= 0x01;
    assert_eq!(
        p.verify_signature(&rec, alice, &sig),
        Err(ZKSigError::SignatureVerificationError)
    );
}

#[test]
fn verify_rejects_message_for_another_agreement() {
    let alice = id(1);
    let p = packet(id(2), Some(alice), "s1");
    let msg = message_for("s1", &id(3));
    let sig = [7u8; 64];
    let rec = record(&alice.bytes, &sig, &msg);
    assert_eq!(
        p.verify_signature(&rec, alice, &sig),
        Err(ZKSigError::SignatureVerificationError)
    );
}

#[test]
fn verify_rejects_every_header_deviation() {
    let alice = id(1);
    let agreement = id(2);
    let p = packet(agreement, Some(alice), "s1");
    let msg = message_for("s1", &agreement);
    let sig = [7u8; 64];
    let good = record(&alice.bytes, &sig, &msg);
    assert!(p.verify_signature(&good, alice, &sig).is_ok());
    // Flip each header byte in turn: the layout is fixed, so every
    // deviation must be rejected.
    for i in 0..16 {
        let mut bad = good.clone();
        bad[i] ^= 0x01;
        assert_eq!(
            p.verify_signature(&bad, alice, &sig),
            Err(ZKSigError::SignatureVerificationError),
            "header byte {} accepted a deviation",
            i
        );
    }
}

#[test]
fn verify_rejects_wrong_pubkey_and_wrong_signature() {
    let alice = id(1);
    let mallory = id(9);
    let agreement = id(2);
    let p = packet(agreement, Some(alice), "s1");
    let msg = message_for("s1", &agreement);
    let sig = [7u8; 64];
    let for_other_key = record(&mallory.bytes, &sig, &msg);
    assert_eq!(
        p.verify_signature(&for_other_key, alice, &sig),
        Err(ZKSigError::SignatureVerificationError)
    );
    let other_sig = [8u8; 64];
    let for_other_sig = record(&alice.bytes, &other_sig, &msg);
    assert_eq!(
        p.verify_signature(&for_other_sig, alice, &sig),
        Err(ZKSigError::SignatureVerificationError)
    );
}

#[test]
fn verify_rejects_short_and_padded_records() {
    let alice = id(1);
    let agreement = id(2);
    let p = packet(agreement, Some(alice), "s1");
    let msg = message_for("s1", &agreement);
    let sig = [7u8; 64];
    let good = record(&alice.bytes, &sig, &msg);

    let short = &good[..64];
    assert_eq!(
        p.verify_signature(short, alice, &sig),
        Err(ZKSigError::SignatureVerificationError)
    );
    assert_eq!(
        p.verify_signature(&[], alice, &sig),
        Err(ZKSigError::SignatureVerificationError)
    );

    let mut padded = good.clone();
    padded.push(0);
    assert_eq!(
        p.verify_signature(&padded, alice, &sig),
        Err(ZKSigError::SignatureVerificationError)
    );
}
