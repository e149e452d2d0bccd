//! The currency that holds the spam bonds.

use crate::types::{AccountId, Balance};
use vstd::prelude::*;

verus! {

/// A currency that can set funds of an account aside and release them again.
///
/// The registry asks it to reserve the spam bond when a profile is registered
/// and to release it when the bond is refunded. It believes the answer and
/// keeps no check on the currency's own books.
pub trait Currency {
    /// Moves `amount` of the free balance of `who` to its reserved balance.
    /// Returns whether that was done; where it was not, nothing has moved.
    fn reserve(&mut self, who: AccountId, amount: Balance) -> bool;

    /// Moves up to `amount` of the reserved balance of `who` back to its free
    /// balance, and returns what could not be moved.
    fn unreserve(&mut self, who: AccountId, amount: Balance) -> Balance;
}

} // verus!
