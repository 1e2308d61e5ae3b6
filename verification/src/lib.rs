//! An e-signature workflow library: agreements collect signatures into
//! consumable signature slots, guarded by an Ed25519 verification-record
//! cross-check, and end approved or rejected once every slot is signed.

pub mod agreement;
pub mod constraint;
pub mod errors;
pub mod identity;
pub mod packet;
pub mod profile;
pub mod verification;
pub mod workflow;
