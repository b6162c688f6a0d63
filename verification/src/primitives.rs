//! 32-byte words and the hash function that produces commitments.

use vstd::prelude::*;
use vstd::std_specs::cmp::PartialEqSpecImpl;

verus! {

/// A 32-byte word: a block hash, an output root or a state commitment.
#[derive(Debug, Clone, Copy, Eq)]
pub struct Hash256 {
    /// The bytes of the word, first byte first.
    pub bytes: [u8; 32],
}

impl View for Hash256 {
    type V = Seq<u8>;

    open spec fn view(&self) -> Seq<u8> {
        self.bytes@
    }
}

impl Hash256 {
    /// Wraps 32 bytes.
    pub fn new(bytes: [u8; 32]) -> (word: Self)
        ensures
            word.bytes == bytes,
    {
        Hash256 { bytes }
    }

    /// Two words with the same bytes are the same word.
    pub proof fn lemma_view_injective(a: Hash256, b: Hash256)
        ensures
            a@ == b@ <==> a == b,
    {
        if a@ == b@ {
            assert forall|i: int| 0 <= i < 32 implies a.bytes[i] == b.bytes[i] by {
                assert(a@[i] == b@[i]);
            }
            assert(a.bytes =~= b.bytes);
        }
    }
}

impl PartialEq for Hash256 {
    fn eq(&self, other: &Self) -> (same: bool) {
        let mut i: usize = 0;
        while i < 32
            invariant
                i <= 32,
                forall|j: int| 0 <= j < i ==> self.bytes[j] == other.bytes[j],
            decreases 32 - i,
        {
            if self.bytes[i] != other.bytes[i] {
                return false;
            }
            i = i + 1;
        }
        assert(self@ =~= other@);
        true
    }
}

impl PartialEqSpecImpl for Hash256 {
    open spec fn obeys_eq_spec() -> bool {
        true
    }

    open spec fn eq_spec(&self, other: &Self) -> bool {
        self@ == other@
    }
}

/// The word that has the given bytes, where they are 32.
pub open spec fn word_of(bytes: Seq<u8>) -> Hash256 {
    choose|word: Hash256| word@ == bytes
}

/// Every word is the word of its bytes.
pub proof fn lemma_word_of_view(word: Hash256)
    ensures
        word_of(word@) == word,
{
    Hash256::lemma_view_injective(word_of(word@), word);
}

/// The Keccak-256 digest of a byte string, as the hashing crate computes it.
pub uninterp spec fn keccak256_digest(data: Seq<u8>) -> Seq<u8>;

/// The Keccak-256 digest of a byte string, as a word.
pub open spec fn keccak256_word(data: Seq<u8>) -> Hash256 {
    word_of(keccak256_digest(data))
}

/// Calls `alloy_primitives::keccak256` on the bytes. The contract claims only
/// that the 32 bytes returned are a function of the input bytes, named
/// `keccak256_digest`; nothing is claimed about which bytes they are.
#[verifier::external_body]
pub(crate) fn keccak256(data: &[u8]) -> (digest: Hash256)
    ensures
        digest@ == keccak256_digest(data@),
{
    Hash256 { bytes: alloy_primitives::keccak256(data).0 }
}

/// Hashes a byte string.
pub fn hash_bytes(data: &[u8]) -> (digest: Hash256)
    ensures
        digest == keccak256_word(data@),
{
    let digest = keccak256(data);
    proof {
        lemma_word_of_view(digest);
    }
    digest
}

} // verus!
