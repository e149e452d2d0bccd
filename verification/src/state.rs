//! The registry as a mathematical state machine.
//!
//! A [`State`] is what the registry holds; a [`Call`] is one request together
//! with everything outside the registry that decides its effect (the block
//! height, whether the bond could be reserved). `State::error_of` says whether
//! a call is rejected and why, `State::step` says what the registry holds
//! afterwards. The executable registry is specified against these.

use crate::types::{
    AccountId, Balance, BlockNumber, Config, Error, MessageHash, MessageId, MessageRecord,
    MAX_PUBLIC_KEY_LEN,
};
use vstd::prelude::*;

verus! {

/// One request to the registry.
pub enum Call {
    /// Register `public_key` for `who`. `reserved` tells whether the currency
    /// could reserve the spam bond; it is only asked once the request is
    /// otherwise valid.
    RegisterProfile { who: AccountId, public_key: Seq<u8>, reserved: bool },
    /// Replace the public key of `who`.
    UpdateProfile { who: AccountId, public_key: Seq<u8> },
    /// Record `hash` as sent from `sender` to `recipient` at block height `now`.
    SendMessageHash { sender: AccountId, recipient: AccountId, hash: MessageHash, now: BlockNumber },
    /// Let `who` approve `contact`.
    ApproveContact { who: AccountId, contact: AccountId },
    /// Let `who` withdraw the approval of `contact`.
    RemoveContact { who: AccountId, contact: AccountId },
    /// Let `challenger` flag message `message_id` as spam.
    ChallengeSpam { challenger: AccountId, message_id: MessageId },
    /// Give `who` the spam bond back.
    RefundBond { who: AccountId },
}

/// Everything the registry holds.
#[verifier::ext_equal]
pub struct State {
    /// The constants the registry was set up with.
    pub config: Config,
    /// The public key of each registered account.
    pub profiles: Map<AccountId, Seq<u8>>,
    /// The bond recorded for each account that holds one.
    pub bonds: Map<AccountId, Balance>,
    /// The message records, by id.
    pub messages: Map<MessageId, MessageRecord>,
    /// The approvals, as pairs of owner and contact. Each direction stands alone.
    pub contacts: Set<(AccountId, AccountId)>,
    /// The number of approved contacts recorded for each owner.
    pub contact_count: Map<AccountId, u32>,
    /// The id that the next message will get. The largest id is never handed
    /// out: a counter that shows it says that the ids are used up.
    pub next_message_id: MessageId,
}

/// Why `public_key` cannot be stored, if it cannot: it is empty or too large.
pub open spec fn key_error(public_key: Seq<u8>) -> Option<Error> {
    if public_key.len() == 0 {
        Some(Error::InvalidPublicKey)
    } else if public_key.len() > MAX_PUBLIC_KEY_LEN {
        Some(Error::PublicKeyTooLarge)
    } else {
        None
    }
}

impl State {
    /// The registry before any call: no profile, bond, message or contact.
    pub open spec fn new(config: Config) -> State {
        State {
            config,
            profiles: Map::empty(),
            bonds: Map::empty(),
            messages: Map::empty(),
            contacts: Set::empty(),
            contact_count: Map::empty(),
            next_message_id: 0,
        }
    }

    /// Whether `who` has a profile.
    pub open spec fn has_profile(self, who: AccountId) -> bool {
        self.profiles.contains_key(who)
    }

    /// The bond recorded for `who`; zero where none is.
    pub open spec fn bond_of(self, who: AccountId) -> Balance {
        if self.bonds.contains_key(who) {
            self.bonds[who]
        } else {
            0
        }
    }

    /// Whether `owner` has approved `contact`.
    pub open spec fn is_approved(self, owner: AccountId, contact: AccountId) -> bool {
        self.contacts.contains((owner, contact))
    }

    /// The contacts that `owner` has approved.
    pub open spec fn contacts_of(self, owner: AccountId) -> Set<AccountId> {
        Set::new(|contact: AccountId| self.contacts.contains((owner, contact)))
    }

    /// The number of contacts recorded for `owner`; zero where none is.
    pub open spec fn count_of(self, owner: AccountId) -> u32 {
        if self.contact_count.contains_key(owner) {
            self.contact_count[owner]
        } else {
            0
        }
    }

    /// Whether message `message_id` can no longer be verified at block height
    /// `now`: it is unknown, or its expiry window has passed.
    pub open spec fn is_message_expired(self, message_id: MessageId, now: BlockNumber) -> bool {
        !self.messages.contains_key(message_id) || now > self.messages[message_id].created_at
            + self.config.message_hash_expiry
    }

    /// Whether `hash` is the hash recorded as message `message_id`, as far as
    /// that can be told at block height `now`.
    pub open spec fn verify_message_hash(
        self,
        message_id: MessageId,
        hash: MessageHash,
        now: BlockNumber,
    ) -> Result<bool, Error> {
        if !self.messages.contains_key(message_id) {
            Err(Error::MessageNotFound)
        } else if self.is_message_expired(message_id, now) {
            Err(Error::MessageExpired)
        } else {
            Ok(self.messages[message_id].content_hash == hash)
        }
    }

    /// The conditions that every registry meets, whatever calls it has seen.
    pub open spec fn wf(self) -> bool {
        &&& forall|who: AccountId| #[trigger]
            self.profiles.contains_key(who) ==> key_error(self.profiles[who]) is None
        &&& forall|who: AccountId| #[trigger]
            self.bonds.contains_key(who) ==> self.profiles.contains_key(who) && self.bonds[who]
                == self.config.spam_bond
        &&& forall|id: MessageId|
            id < self.next_message_id ==> #[trigger] self.messages.contains_key(id)
        &&& forall|id: MessageId| #[trigger]
            self.messages.contains_key(id) ==> {
                &&& id < self.next_message_id
                &&& self.profiles.contains_key(self.messages[id].sender)
                &&& self.profiles.contains_key(self.messages[id].recipient)
            }
        &&& forall|owner: AccountId, contact: AccountId| #[trigger]
            self.contacts.contains((owner, contact)) ==> {
                &&& owner != contact
                &&& self.profiles.contains_key(owner)
                &&& self.profiles.contains_key(contact)
            }
        &&& forall|owner: AccountId|
            {
                &&& (#[trigger] self.contacts_of(owner)).finite()
                &&& self.contacts_of(owner).len() == self.count_of(owner)
                &&& self.count_of(owner) <= self.config.max_contacts_per_user
            }
    }

    /// Why `call` is rejected, if it is.
    pub open spec fn error_of(self, call: Call) -> Option<Error> {
        match call {
            Call::RegisterProfile { who, public_key, reserved } => {
                if self.has_profile(who) {
                    Some(Error::ProfileAlreadyExists)
                } else if key_error(public_key) is Some {
                    key_error(public_key)
                } else if !reserved {
                    Some(Error::InsufficientBond)
                } else {
                    None
                }
            },
            Call::UpdateProfile { who, public_key } => {
                if !self.has_profile(who) {
                    Some(Error::ProfileNotFound)
                } else {
                    key_error(public_key)
                }
            },
            Call::SendMessageHash { sender, recipient, hash, now } => {
                if !self.has_profile(sender) {
                    Some(Error::ProfileNotFound)
                } else if self.bond_of(sender) == 0 {
                    Some(Error::InsufficientBond)
                } else if !self.has_profile(recipient) {
                    Some(Error::RecipientNotFound)
                } else if self.next_message_id == u64::MAX {
                    Some(Error::MessageIdsExhausted)
                } else {
                    None
                }
            },
            Call::ApproveContact { who, contact } => {
                if who == contact {
                    Some(Error::CannotAddSelf)
                } else if !self.has_profile(who) {
                    Some(Error::ProfileNotFound)
                } else if !self.has_profile(contact) {
                    Some(Error::RecipientNotFound)
                } else if !self.is_approved(who, contact) && self.count_of(who)
                    >= self.config.max_contacts_per_user {
                    Some(Error::MaxContactsReached)
                } else {
                    None
                }
            },
            Call::RemoveContact { who, contact } => None,
            Call::ChallengeSpam { challenger, message_id } => {
                if !self.messages.contains_key(message_id) {
                    Some(Error::MessageNotFound)
                } else {
                    None
                }
            },
            Call::RefundBond { who } => {
                if self.bond_of(who) == 0 {
                    Some(Error::BondAlreadyRefunded)
                } else {
                    None
                }
            },
        }
    }

    /// Whether `call` is accepted.
    pub open spec fn accepts(self, call: Call) -> bool {
        self.error_of(call) is None
    }

    /// What the registry holds after `call`. A rejected call changes nothing.
    pub open spec fn step(self, call: Call) -> State {
        if self.error_of(call) is Some {
            self
        } else {
            match call {
                Call::RegisterProfile { who, public_key, reserved } => State {
                    profiles: self.profiles.insert(who, public_key),
                    bonds: self.bonds.insert(who, self.config.spam_bond),
                    ..self
                },
                Call::UpdateProfile { who, public_key } => State {
                    profiles: self.profiles.insert(who, public_key),
                    ..self
                },
                Call::SendMessageHash { sender, recipient, hash, now } => State {
                    messages: self.messages.insert(
                        self.next_message_id,
                        MessageRecord { content_hash: hash, created_at: now, sender, recipient },
                    ),
                    next_message_id: (self.next_message_id + 1) as u64,
                    ..self
                },
                Call::ApproveContact { who, contact } => {
                    if self.is_approved(who, contact) {
                        self
                    } else {
                        State {
                            contacts: self.contacts.insert((who, contact)),
                            contact_count: self.contact_count.insert(
                                who,
                                (self.count_of(who) + 1) as u32,
                            ),
                            ..self
                        }
                    }
                },
                Call::RemoveContact { who, contact } => {
                    if !self.is_approved(who, contact) {
                        self
                    } else {
                        State {
                            contacts: self.contacts.remove((who, contact)),
                            contact_count: self.contact_count.insert(
                                who,
                                if self.count_of(who) > 0 {
                                    (self.count_of(who) - 1) as u32
                                } else {
                                    0
                                },
                            ),
                            ..self
                        }
                    }
                },
                Call::ChallengeSpam { challenger, message_id } => self,
                Call::RefundBond { who } => State { bonds: self.bonds.remove(who), ..self },
            }
        }
    }

    /// What the registry holds after the calls of `calls`, made in order.
    pub open spec fn run(self, calls: Seq<Call>) -> State
        decreases calls.len(),
    {
        if calls.len() == 0 {
            self
        } else {
            self.run(calls.drop_last()).step(calls.last())
        }
    }

    /// How many calls of `calls`, made in order from this state, record a message.
    pub open spec fn messages_sent(self, calls: Seq<Call>) -> nat
        decreases calls.len(),
    {
        if calls.len() == 0 {
            0
        } else {
            let before = self.run(calls.drop_last());
            let last: nat = if calls.last() is SendMessageHash && before.accepts(calls.last()) {
                1
            } else {
                0
            };
            self.messages_sent(calls.drop_last()) + last
        }
    }
}

} // verus!
