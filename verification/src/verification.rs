use vstd::prelude::*;

verus! {

broadcast use vstd::seq_lib::group_seq_lib_default, vstd::array::group_array_axioms;

/// The little-endian 16-bit value stored at offset `i` of `data`.
pub open spec fn le16(data: Seq<u8>, i: int) -> int {
    data[i] + 0x100 * data[i + 1]
}

/// A verification record proves that the external Ed25519 primitive checked
/// one signature, by `pubkey`, over exactly `msg`, with signature bytes
/// `signature`. The record is valid only if every header field matches the
/// fixed single-signature layout and the three payloads match byte for
/// byte:
///
/// | offset   | field                        | required value         |
/// |----------|------------------------------|------------------------|
/// | 0        | signature count              | 1                      |
/// | 1        | padding                      | 0                      |
/// | 2..4     | signature offset             | 48                     |
/// | 4..6     | signature instruction index  | 0xFFFF (current)       |
/// | 6..8     | public key offset            | 16                     |
/// | 8..10    | key instruction index        | 0xFFFF (current)       |
/// | 10..12   | message offset               | 112                    |
/// | 12..14   | message size                 | `msg.len()`            |
/// | 14..16   | message instruction index    | 0xFFFF (current)       |
/// | 16..48   | public key bytes             | `pubkey`               |
/// | 48..112  | signature bytes              | `signature`            |
/// | 112..end | message bytes                | `msg`, nothing after   |
pub open spec fn valid_record(
    data: Seq<u8>,
    pubkey: Seq<u8>,
    signature: Seq<u8>,
    msg: Seq<u8>,
) -> bool {
    &&& data.len() >= 112
    &&& data[0] == 1
    &&& data[1] == 0
    &&& le16(data, 2) == 48
    &&& le16(data, 4) == 0xFFFF
    &&& le16(data, 6) == 16
    &&& le16(data, 8) == 0xFFFF
    &&& le16(data, 10) == 112
    &&& le16(data, 12) == msg.len()
    &&& le16(data, 14) == 0xFFFF
    &&& data.subrange(16, 48) == pubkey
    &&& data.subrange(48, 112) == signature
    &&& data.skip(112) == msg
}

/// Read the little-endian 16-bit header field at offset `i`.
fn read_le16(data: &[u8], i: usize) -> (r: usize)
    requires
        i + 1 < data@.len(),
    ensures
        r == le16(data@, i as int),
{
    (data[i] as usize) + 0x100 * (data[i + 1] as usize)
}

/// Whether `data[start .. start + expect.len()]` equals `expect`.
fn range_matches(data: &[u8], start: usize, expect: &[u8]) -> (r: bool)
    requires
        start + expect@.len() <= data@.len(),
    ensures
        r == (data@.subrange(start as int, start + expect@.len()) == expect@),
{
    let n = expect.len();
    let dlen = data.len();
    let mut i: usize = 0;
    while i < n
        invariant
            n == expect@.len(),
            dlen == data@.len(),
            start + n <= dlen,
            i <= n,
            forall|j: int| 0 <= j < i ==> data@[start + j] == expect@[j],
        decreases n - i,
    {
        if data[start + i] != expect[i] {
            assert(data@.subrange(start as int, start + expect@.len())[i as int]
                != expect@[i as int]);
            return false;
        }
        i += 1;
    }
    proof {
        assert(data@.subrange(start as int, start + expect@.len()) =~= expect@);
    }
    true
}

/// Decide whether `data` is a valid verification record for `pubkey`,
/// `signature` and `msg`: an all-or-nothing cross-check of the fixed header
/// layout and of the three byte payloads.
pub fn check_record(data: &[u8], pubkey: &[u8; 32], signature: &[u8], msg: &[u8]) -> (r: bool)
    ensures
        r == valid_record(data@, pubkey@, signature@, msg@),
{
    if data.len() < 112 {
        return false;
    }
    if data[0] != 1 || data[1] != 0 {
        return false;
    }
    if read_le16(data, 2) != 48 {
        return false;
    }
    if read_le16(data, 4) != 0xFFFF {
        return false;
    }
    if read_le16(data, 6) != 16 {
        return false;
    }
    if read_le16(data, 8) != 0xFFFF {
        return false;
    }
    if read_le16(data, 10) != 112 {
        return false;
    }
    if read_le16(data, 12) != msg.len() {
        return false;
    }
    if read_le16(data, 14) != 0xFFFF {
        return false;
    }
    if !range_matches(data, 16, pubkey.as_slice()) {
        return false;
    }
    if signature.len() != 64 {
        return false;
    }
    if !range_matches(data, 48, signature) {
        return false;
    }
    if data.len() - 112 != msg.len() {
        return false;
    }
    if !range_matches(data, 112, msg) {
        return false;
    }
    proof {
        assert(data@.skip(112) =~= data@.subrange(112, 112 + msg@.len() as int));
    }
    true
}

} // verus!
