//! The weight that each call of the registry is charged.

use frame_support::weights::Weight;
use vstd::prelude::*;

verus! {

/// `Weight`, the cost of a call in units of computation and bytes of proof.
/// Nothing is claimed of it but what `weight_from_parts` says.
#[verifier::external_type_specification]
#[verifier::external_body]
pub struct ExWeight(Weight);

/// The weight made of `ref_time` units of computation and `proof_size` bytes
/// of proof.
pub uninterp spec fn weight_of_parts(ref_time: u64, proof_size: u64) -> Weight;

/// Calls `Weight::from_parts`, which puts the two numbers it is given into a
/// weight and does nothing else. The contract only gives that weight a name;
/// what is in it can be read with the weight's own `ref_time` and
/// `proof_size`.
#[verifier::external_body]
fn weight_from_parts(ref_time: u64, proof_size: u64) -> (weight: Weight)
    ensures
        weight == weight_of_parts(ref_time, proof_size),
{
    Weight::from_parts(ref_time, proof_size)
}

/// The weights of the registry's calls, one function for each call that is
/// charged.
pub trait WeightInfo {
    /// The weight of registering a profile.
    fn register_profile() -> Weight;

    /// The weight of recording a message hash.
    fn send_message_hash() -> Weight;

    /// The weight of approving a contact.
    fn approve_contact() -> Weight;

    /// The weight of removing a contact.
    fn remove_contact() -> Weight;

    /// The weight of challenging a message.
    fn challenge_spam() -> Weight;

    /// The weight of refunding a bond.
    fn refund_bond() -> Weight;
}

/// Fixed weights, for runtimes that have not measured their own.
impl WeightInfo for () {
    fn register_profile() -> (weight: Weight)
        ensures
            weight == weight_of_parts(10_000, 0),
    {
        weight_from_parts(10_000, 0)
    }

    fn send_message_hash() -> (weight: Weight)
        ensures
            weight == weight_of_parts(50_000, 0),
    {
        weight_from_parts(50_000, 0)
    }

    fn approve_contact() -> (weight: Weight)
        ensures
            weight == weight_of_parts(10_000, 0),
    {
        weight_from_parts(10_000, 0)
    }

    fn remove_contact() -> (weight: Weight)
        ensures
            weight == weight_of_parts(10_000, 0),
    {
        weight_from_parts(10_000, 0)
    }

    fn challenge_spam() -> (weight: Weight)
        ensures
            weight == weight_of_parts(20_000, 0),
    {
        weight_from_parts(20_000, 0)
    }

    fn refund_bond() -> (weight: Weight)
        ensures
            weight == weight_of_parts(10_000, 0),
    {
        weight_from_parts(10_000, 0)
    }
}

} // verus!
