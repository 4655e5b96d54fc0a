//! The ABI layout of the content registry's `isAuthorized` query.
//!
//! Every value involved is static, so an encoding is the 32-byte words of its
//! values one after the other, and a call is its four selector bytes followed
//! by the encoding of its arguments.

use crate::utils::hashing::{append_bytes, keccak, keccak256};
use crate::utils::primitives::{all_zero, Address, B256, U256};
use vstd::prelude::*;
use vstd::slice::slice_subrange;
use vstd::string::StringSliceAdditionalSpecFns;

verus! {

/// `isAuthorized(uint256 _contentId, address _caller) returns (bool)`, as the
/// signature that its selector is hashed from.
pub const IS_AUTHORIZED_SIGNATURE: &'static str = "isAuthorized(uint256,address)";

/// The ABI word of an address: twelve zero bytes, then the address.
pub open spec fn address_word(address: Seq<u8>) -> Seq<u8> {
    Seq::new(12, |i: int| 0u8) + address
}

/// The call data of `isAuthorized(content_id, caller)` under a selector that
/// is the first four bytes of `signature_hash`.
pub open spec fn is_authorized_calldata(
    signature_hash: Seq<u8>,
    content_id: Seq<u8>,
    caller: Seq<u8>,
) -> Seq<u8> {
    signature_hash.subrange(0, 4) + content_id + address_word(caller)
}

/// The call data of `isAuthorized(content_id, caller)`.
pub open spec fn is_authorized_call(content_id: Seq<u8>, caller: Seq<u8>) -> Seq<u8> {
    is_authorized_calldata(keccak256(IS_AUTHORIZED_SIGNATURE.spec_bytes()), content_id, caller)
}

/// What a returned byte string says as a single `bool`: its first word, true
/// when any byte of the word is set; nothing when it is shorter than a word.
/// Bytes after the first word are not looked at.
pub open spec fn returned_bool(data: Seq<u8>) -> Option<bool> {
    if data.len() < 32 {
        None
    } else {
        Some(exists|i: int| 0 <= i < 32 && data[i] != 0)
    }
}

/// Appends the ABI word of `address` to `out`.
pub fn append_address(out: &mut Vec<u8>, address: &Address)
    ensures
        final(out)@ == old(out)@ + address_word(address@),
{
    let padding = [0u8; 12];
    append_bytes(out, padding.as_slice());
    append_bytes(out, address.0.as_slice());
    assert(padding@ =~= Seq::new(12, |i: int| 0u8));
    assert(out@ =~= old(out)@ + address_word(address@));
}

/// Puts the call data of `isAuthorized` together from the hash of its
/// signature and its two arguments.
pub fn encode_is_authorized_with(
    signature_hash: &B256,
    content_id: &U256,
    caller: &Address,
) -> (calldata: Vec<u8>)
    ensures
        calldata@ == is_authorized_calldata(signature_hash@, content_id.0@, caller@),
{
    let mut calldata: Vec<u8> = Vec::new();
    append_bytes(&mut calldata, slice_subrange(signature_hash.0.as_slice(), 0, 4));
    append_bytes(&mut calldata, content_id.0.as_slice());
    append_address(&mut calldata, caller);
    assert(calldata@ =~= is_authorized_calldata(signature_hash@, content_id.0@, caller@));
    calldata
}

/// The call data of `isAuthorized(content_id, caller)`.
pub fn encode_is_authorized(content_id: &U256, caller: &Address) -> (calldata: Vec<u8>)
    ensures
        calldata@ == is_authorized_call(content_id.0@, caller@),
{
    let signature_hash = keccak(IS_AUTHORIZED_SIGNATURE.as_bytes());
    encode_is_authorized_with(&signature_hash, content_id, caller)
}

/// Reads what `isAuthorized` returned.
pub fn decode_bool_return(data: &[u8]) -> (decoded: Option<bool>)
    ensures
        decoded == returned_bool(data@),
{
    if data.len() < 32 {
        return None;
    }
    let word = slice_subrange(data, 0, 32);
    let zero = all_zero(word);
    proof {
        if zero {
            assert forall|i: int| 0 <= i < 32 implies data@[i] == 0 by {
                assert(word@[i] == 0);
            }
        } else {
            let i = choose|i: int| 0 <= i < word@.len() && word@[i] != 0;
            assert(data@[i] != 0);
        }
    }
    Some(!zero)
}

} // verus!
