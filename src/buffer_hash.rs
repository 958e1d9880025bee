//! Content digest of a raw byte buffer.
use vstd::prelude::*;

verus! {

/// The 64-bit XXH3 digest (default secret, seed 0) of a byte sequence.
pub uninterp spec fn xxh3_64_of(bytes: Seq<u8>) -> u64;

/// The low 32 bits of a 64-bit value.
pub open spec fn low_word(h: u64) -> u32 {
    (h % 0x1_0000_0000) as u32
}

/// The digest that `hash_buffer` returns for a byte sequence.
pub open spec fn buffer_digest(bytes: Seq<u8>) -> u32 {
    low_word(xxh3_64_of(bytes))
}

/// Relies on `xxhash_rust::xxh3::xxh3_64`: a function of the input bytes alone.
#[verifier::external_body]
fn xxh3_64(bytes: &[u8]) -> (r: u64)
    ensures
        r == xxh3_64_of(bytes@),
{
    xxhash_rust::xxh3::xxh3_64(bytes)
}

/// Keeps the low 32 bits of a 64-bit digest.
pub fn fold_digest(full: u64) -> (r: u32)
    ensures
        r == low_word(full),
{
    let masked: u64 = full & 0xFFFF_FFFF;
    assert(masked == full % 0x1_0000_0000) by (bit_vector)
        requires
            masked == full & 0xFFFF_FFFF,
    ;
    masked as u32
}

/// A 32-bit digest of the whole buffer: the low half of its XXH3-64 hash.
/// Total: every byte sequence, the empty one included, has a digest.
pub fn hash_buffer(buffer: &[u8]) -> (r: u32)
    ensures
        r == buffer_digest(buffer@),
{
    let full = xxh3_64(buffer);
    fold_digest(full)
}

/// Equal byte sequences have equal digests.
pub proof fn lemma_digest_deterministic(a: Seq<u8>, b: Seq<u8>)
    requires
        a =~= b,
    ensures
        buffer_digest(a) == buffer_digest(b),
{
}

} // verus!
