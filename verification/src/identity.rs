use vstd::prelude::*;

verus! {

broadcast use vstd::array::group_array_axioms;

/// A party or record address: the 32 raw key bytes, which is the only form
/// of identity the workflow logic reads. The record store derives addresses
/// in the same form and renders them as base-58 text.
#[derive(Clone, Copy, Debug, PartialEq, Eq)]
pub struct Identity {
    pub bytes: [u8; 32],
}

impl View for Identity {
    type V = Seq<u8>;

    open spec fn view(&self) -> Seq<u8> {
        self.bytes@
    }
}

/// Byte-wise equality of two identities. Two identities with the same bytes
/// are the same value, so the result also decides plain equality.
pub fn id_eq(a: &Identity, b: &Identity) -> (r: bool)
    ensures
        r == (a@ == b@),
        r == (*a == *b),
{
    let mut i: usize = 0;
    while i < 32
        invariant
            i <= 32,
            forall|j: int| 0 <= j < i ==> a.bytes@[j] == b.bytes@[j],
        decreases 32 - i,
    {
        if a.bytes[i] != b.bytes[i] {
            return false;
        }
        i += 1;
    }
    proof {
        assert(a.bytes@ =~= b.bytes@);
        assert(a.bytes =~= b.bytes);
    }
    true
}

/// The base-58 rendering of 32 key bytes, as the outside key type displays
/// an address. It is a fixed function of the bytes alone.
pub uninterp spec fn base58_of(bytes: Seq<u8>) -> Seq<char>;

/// Relies on anchor_lang's `Pubkey::to_string` (its `Display` impl), which
/// renders the 32 key bytes as base-58 text, a function of the bytes alone.
#[verifier::external_body]
pub(crate) fn address_text(key: &Identity) -> (r: String)
    ensures
        r@ == base58_of(key@),
{
    anchor_lang::prelude::Pubkey::new_from_array(key.bytes).to_string()
}

} // verus!
