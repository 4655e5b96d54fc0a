//! Keccak-256, and byte strings put together for hashing.

use crate::utils::primitives::B256;
use vstd::prelude::*;

verus! {

/// The Keccak-256 digest of a byte string, as `alloy_primitives::keccak256`
/// computes it. Nothing else is said of it here: what is proved of a digest
/// is which bytes went into it.
pub uninterp spec fn keccak256(data: Seq<u8>) -> Seq<u8>;

/// Hashes `data` with `alloy_primitives::keccak256`.
///
/// Not proved: that the 32 bytes handed back depend on the bytes of `data`
/// alone, which is what makes them `keccak256(data@)`.
#[verifier::external_body]
pub(crate) fn keccak(data: &[u8]) -> (digest: B256)
    ensures
        digest@ == keccak256(data@),
{
    B256(alloy_primitives::keccak256(data).0)
}

/// Appends `bytes` to `out`.
pub fn append_bytes(out: &mut Vec<u8>, bytes: &[u8])
    ensures
        final(out)@ == old(out)@ + bytes@,
{
    let mut i: usize = 0;
    while i < bytes.len()
        invariant
            0 <= i <= bytes@.len(),
            out@ == old(out)@ + bytes@.subrange(0, i as int),
        decreases bytes@.len() - i,
    {
        out.push(bytes[i]);
        assert(bytes@.subrange(0, i + 1) =~= bytes@.subrange(0, i as int).push(bytes@[i as int]));
        assert(out@ =~= old(out)@ + bytes@.subrange(0, i + 1));
        i += 1;
    }
    assert(bytes@.subrange(0, i as int) =~= bytes@);
}

} // verus!
