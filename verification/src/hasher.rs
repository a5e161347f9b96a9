//! The content-hashing interface and a default 64-bit hasher.

use vstd::prelude::*;

verus! {

/// Derives a topic's identifier from its content.  `hash_spec` names the
/// value each implementation returns, so hashing is deterministic: equal
/// content always yields an equal identifier.
pub trait Hasher {
    /// The identifier an implementation assigns to `content`.
    spec fn hash_spec(content: Seq<u8>) -> u64;

    fn hash(&self, content: &Vec<u8>) -> (h: u64)
        ensures
            h == Self::hash_spec(content@),
    ;
}

pub const FNV_OFFSET: u64 = 0xcbf29ce484222325;

pub const FNV_PRIME: u64 = 0x100000001b3;

/// One round of the FNV-1a mixing function.
pub open spec fn fnv1a_step(h: u64, b: u8) -> u64 {
    (h ^ (b as u64)).wrapping_mul(FNV_PRIME)
}

/// The FNV-1a hash of a byte sequence.
pub open spec fn fnv1a(bytes: Seq<u8>) -> u64
    decreases bytes.len(),
{
    if bytes.len() == 0 {
        FNV_OFFSET
    } else {
        fnv1a_step(fnv1a(bytes.drop_last()), bytes.last())
    }
}

/// The default content hasher: FNV-1a over the raw bytes.
#[derive(Clone, Copy, Debug)]
pub struct FnvHasher;

impl Hasher for FnvHasher {
    open spec fn hash_spec(content: Seq<u8>) -> u64 {
        fnv1a(content)
    }

    fn hash(&self, content: &Vec<u8>) -> u64 {
        let mut h: u64 = FNV_OFFSET;
        let mut i: usize = 0;
        while i < content.len()
            invariant
                0 <= i <= content@.len(),
                h == fnv1a(content@.take(i as int)),
            decreases content@.len() - i,
        {
            proof {
                assert(content@.take(i as int + 1).drop_last() =~= content@.take(i as int));
            }
            h = (h ^ (content[i] as u64)).wrapping_mul(FNV_PRIME);
            i = i + 1;
        }
        proof {
            assert(content@.take(content@.len() as int) =~= content@);
        }
        h
    }
}

} // verus!
