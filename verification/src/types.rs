//! Plain values the registry works on: identifiers, configuration, records,
//! notifications and rejection reasons.

use vstd::prelude::*;

verus! {

/// Identifies an account.
pub type AccountId = u64;

/// An amount of currency.
pub type Balance = u128;

/// A block height.
pub type BlockNumber = u64;

/// Identifies a message record; assigned by the ledger, never by the caller.
pub type MessageId = u64;

/// The hash of an encrypted message.
pub type MessageHash = [u8; 32];

/// Largest accepted public key, in bytes.
pub const MAX_PUBLIC_KEY_LEN: usize = 256;

/// The constants a registry is set up with. They never change afterwards.
#[derive(Clone, Copy, Debug, PartialEq, Eq)]
pub struct Config {
    /// The amount reserved as a spam bond when a profile is registered.
    pub spam_bond: Balance,
    /// The largest number of contacts one account may have approved.
    pub max_contacts_per_user: u32,
    /// The number of blocks after which a message hash can no longer be verified.
    pub message_hash_expiry: BlockNumber,
}

/// What the ledger keeps of one message: its hash and where it came from.
#[derive(Clone, Copy, Debug, PartialEq, Eq)]
pub struct MessageRecord {
    /// The hash of the encrypted message.
    pub content_hash: MessageHash,
    /// The block height at which the hash was recorded.
    pub created_at: BlockNumber,
    /// The account that sent the message.
    pub sender: AccountId,
    /// The account the message was addressed to.
    pub recipient: AccountId,
}

/// The notification an accepted call produces.
#[derive(Clone, Debug, PartialEq, Eq)]
pub enum Event {
    /// A user profile was registered.
    ProfileRegistered { who: AccountId, public_key: Vec<u8> },
    /// A message hash was recorded.
    MessageSent { message_id: MessageId, from: AccountId, to: AccountId, hash: MessageHash },
    /// A contact was approved.
    ContactApproved { approver: AccountId, contact: AccountId },
    /// A contact was removed.
    ContactRemoved { remover: AccountId, contact: AccountId },
    /// A message was challenged as spam.
    SpamChallenged { message_id: MessageId, challenger: AccountId },
    /// A spam bond was refunded.
    BondRefunded { who: AccountId, amount: Balance },
    /// A user profile was updated.
    ProfileUpdated { who: AccountId, public_key: Vec<u8> },
}

/// Why a call was rejected.
#[derive(Clone, Copy, Debug, PartialEq, Eq)]
pub enum Error {
    /// Profile already exists for this account.
    ProfileAlreadyExists,
    /// No profile found for this account.
    ProfileNotFound,
    /// The spam bond is not held, or could not be reserved.
    InsufficientBond,
    /// The public key is empty.
    InvalidPublicKey,
    /// Recipient doesn't have a profile.
    RecipientNotFound,
    /// Maximum number of contacts reached.
    MaxContactsReached,
    /// Contact not in approved list.
    ContactNotApproved,
    /// Message not found in the ledger.
    MessageNotFound,
    /// Message hash has expired.
    MessageExpired,
    /// Not authorized to perform this action.
    NotAuthorized,
    /// Bond has already been refunded.
    BondAlreadyRefunded,
    /// Cannot add yourself as a contact.
    CannotAddSelf,
    /// Public key too large.
    PublicKeyTooLarge,
    /// Every message id has been handed out.
    MessageIdsExhausted,
}

/// Whether two hashes hold the same bytes.
pub fn hash_eq(a: &MessageHash, b: &MessageHash) -> (same: bool)
    ensures
        same == (*a == *b),
{
    let mut i: usize = 0;
    while i < 32
        invariant
            i <= 32,
            forall|j: int| 0 <= j < i ==> a@[j] == b@[j],
        decreases 32 - i,
    {
        if a[i] != b[i] {
            return false;
        }
        i += 1;
    }
    assert(*a =~= *b);
    true
}

} // verus!
