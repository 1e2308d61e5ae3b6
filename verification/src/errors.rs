use vstd::prelude::*;

verus! {

/// The failure kinds that agreement, slot and verification operations
/// report. Every fallible operation of this crate returns exactly one of
/// these, chosen at the first violated precondition.
#[derive(Clone, Copy, Debug, PartialEq, Eq, Structural)]
pub enum ZKSigError {
    /// Catch-all for invariant violations that should be unreachable.
    UnexpectedError,
    /// An agreement transition was attempted from the wrong source status.
    NonPendingAgreement,
    /// A slot's signer binding does not match the identity signing it.
    MismatchedSigner,
    /// A slot that was already consumed was presented again.
    UsedConstraint,
    /// A verification record failed the header or content cross-checks.
    SignatureVerificationError,
}

} // verus!
