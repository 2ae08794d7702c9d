use std::collections::hash_map::DefaultHasher;
use std::hash::Hasher;
use vstd::bytes::{spec_u32_to_le_bytes, spec_u64_to_le_bytes, u32_to_le_bytes, u64_to_le_bytes};
use vstd::prelude::*;
use vstd::std_specs::hash::DefaultHasherAdditionalSpecFns;

verus! {

/// The bytes of the length `len` as a `usize` is written when a slice is
/// hashed: `usize`'s width (four or eight bytes), least significant byte
/// first, which is the byte order of every Windows target.
pub open spec fn length_prefix(len: nat) -> Seq<u8> {
    if usize::BITS == 64 {
        spec_u64_to_le_bytes(len as u64)
    } else {
        spec_u32_to_le_bytes(len as u32)
    }
}

/// The content digest of a byte string: `DefaultHasher` fed with the
/// string's length prefix and then the string itself, as hashing the slice
/// does.
pub open spec fn content_digest(bytes: Seq<u8>) -> u64 {
    DefaultHasher::spec_finish(seq![length_prefix(bytes.len()), bytes])
}

/// Computes the content digest of `bytes`.
pub fn hash_bytes(bytes: &[u8]) -> (digest: u64)
    ensures
        digest == content_digest(bytes@),
{
    let mut hasher = DefaultHasher::new();
    let len: usize = bytes.len();
    let prefix = if usize::BITS == 64 {
        u64_to_le_bytes(len as u64)
    } else {
        u32_to_le_bytes(len as u32)
    };
    hasher.write(prefix.as_slice());
    hasher.write(bytes);
    let digest: u64 = hasher.finish();
    assert(hasher@ =~= seq![length_prefix(bytes@.len()), bytes@]);
    digest
}

} // verus!
