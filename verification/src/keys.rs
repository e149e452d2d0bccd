//! Public keys as the registry stores them: in a vector that cannot grow
//! beyond 256 bytes.

use frame_support::traits::ConstU32;
use frame_support::BoundedVec;
use vstd::prelude::*;

verus! {

/// `ConstU32`, the number that a bounded vector carries in its type as its
/// bound. It has no value to speak of; nothing is claimed of it.
#[verifier::external_type_specification]
#[verifier::external_body]
pub struct ExConstU32<const N: u32>(ConstU32<N>);

/// `BoundedVec`, a vector that is only ever built with at most as many items
/// as its bound says. What one holds is told by `stored_key_bytes`, and only
/// as far as the two functions below say.
#[verifier::external_type_specification]
#[verifier::external_body]
#[verifier::reject_recursive_types(T)]
#[verifier::reject_recursive_types(S)]
pub struct ExBoundedVec<T, S>(BoundedVec<T, S>);

/// The bytes that a stored key holds, in order.
pub uninterp spec fn stored_key_bytes(key: BoundedVec<u8, ConstU32<256>>) -> Seq<u8>;

/// Calls `BoundedVec::try_from` on a vector of bytes, with a bound of 256.
/// It compares the vector's length with the bound: a vector within the bound
/// is taken as it is and becomes the stored key, a longer one is handed back
/// untouched.
#[verifier::external_body]
pub(crate) fn bound_key(bytes: Vec<u8>) -> (key: Result<BoundedVec<u8, ConstU32<256>>, Vec<u8>>)
    ensures
        bytes@.len() <= 256 ==> key is Ok && stored_key_bytes(key->Ok_0) == bytes@,
        bytes@.len() > 256 ==> key is Err && key->Err_0 == bytes,
{
    BoundedVec::try_from(bytes)
}

/// Calls `BoundedVec::into_inner` on a copy of a stored key, which gives the
/// vector that the key holds: the result has the key's bytes.
#[verifier::external_body]
pub(crate) fn key_bytes(key: &BoundedVec<u8, ConstU32<256>>) -> (bytes: Vec<u8>)
    ensures
        bytes@ == stored_key_bytes(*key),
{
    key.clone().into_inner()
}

} // verus!
