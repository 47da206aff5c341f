//! Sender identity hashing: 64-bit FNV-1a over the UTF-8 bytes of an id.
use vstd::prelude::*;
use vstd::string::StringSliceAdditionalSpecFns;

verus! {

/// FNV-1a 64-bit offset basis.
pub const FNV_OFFSET_BASIS: u64 = 0xCBF2_9CE4_8422_2325;

/// FNV-1a 64-bit prime.
pub const FNV_PRIME: u64 = 0x0000_0100_0000_01B3;

/// FNV-1a over `bytes`: starting from the offset basis, each byte is xored
/// into the hash, which is then multiplied by the prime modulo 2^64.
pub open spec fn fnv1a(bytes: Seq<u8>) -> u64
    decreases bytes.len(),
{
    if bytes.len() == 0 {
        FNV_OFFSET_BASIS
    } else {
        (fnv1a(bytes.drop_last()) ^ (bytes.last() as u64)).wrapping_mul(FNV_PRIME)
    }
}

/// The FNV-1a hash of the sender id's UTF-8 bytes.
pub fn identity_annihilation(sender_id: &str) -> (r: u64)
    ensures
        r == fnv1a(sender_id.spec_bytes()),
{
    let bytes = sender_id.as_bytes();
    let mut hash: u64 = FNV_OFFSET_BASIS;
    let mut i: usize = 0;
    while i < bytes.len()
        invariant
            i <= bytes@.len(),
            hash == fnv1a(bytes@.subrange(0, i as int)),
        decreases bytes@.len() - i,
    {
        assert(bytes@.subrange(0, i + 1).drop_last() =~= bytes@.subrange(0, i as int));
        hash = (hash ^ (bytes[i] as u64)).wrapping_mul(FNV_PRIME);
        i += 1;
    }
    assert(bytes@.subrange(0, i as int) =~= bytes@);
    hash
}

/// Hashing is a function of the bytes alone, and the empty id hashes to the
/// offset basis.
pub proof fn lemma_identity_hash_pure(a: Seq<u8>, b: Seq<u8>)
    ensures
        a == b ==> fnv1a(a) == fnv1a(b),
        fnv1a(Seq::<u8>::empty()) == FNV_OFFSET_BASIS,
{
}

} // verus!
