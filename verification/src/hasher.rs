//! Content digests, used to tell whether an edit changed anything.

use vstd::prelude::*;

verus! {

/// The BLAKE3 hash of `data`: the 32 bytes that `blake3::hash` returns for it.
pub uninterp spec fn spec_blake3(data: Seq<u8>) -> Seq<u8>;

/// Calls `blake3::hash`. The contract only gives the result its name: the
/// hash is a function of the input bytes.
#[verifier::external_body]
fn blake3_hash(data: &[u8]) -> (out: Vec<u8>)
    ensures
        out@ == spec_blake3(data@),
{
    blake3::hash(data).as_bytes().to_vec()
}

/// A fingerprint of a byte string. It is compared and then thrown away.
#[derive(Debug)]
pub struct Digest {
    bytes: Vec<u8>,
}

impl View for Digest {
    type V = Seq<u8>;

    closed spec fn view(&self) -> Seq<u8> {
        self.bytes@
    }
}

impl Digest {
    /// The bytes of the digest.
    pub fn as_bytes(&self) -> (bytes: &[u8])
        ensures
            bytes@ == self@,
    {
        self.bytes.as_slice()
    }

    /// Whether two digests hold the same bytes.
    pub fn same_as(&self, other: &Digest) -> (same: bool)
        ensures
            same == (self@ == other@),
    {
        if self.bytes.len() != other.bytes.len() {
            return false;
        }
        let mut i: usize = 0;
        while i < self.bytes.len()
            invariant
                i <= self.bytes.len(),
                self.bytes.len() == other.bytes.len(),
                forall|j: int| 0 <= j < i ==> self.bytes@[j] == other.bytes@[j],
            decreases self.bytes.len() - i,
        {
            if self.bytes[i] != other.bytes[i] {
                return false;
            }
            i += 1;
        }
        assert(self.bytes@ =~= other.bytes@);
        true
    }
}

/// The digest of `data`.
pub fn digest(data: &[u8]) -> (d: Digest)
    ensures
        d@ == spec_blake3(data@),
{
    Digest { bytes: blake3_hash(data) }
}

} // verus!
