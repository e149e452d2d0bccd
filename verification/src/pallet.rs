//! The executable registry.

use crate::currency::Currency;
use crate::keys::{bound_key, key_bytes, stored_key_bytes};
use crate::state::{key_error, Call, State};
use crate::types::{
    hash_eq, AccountId, Balance, BlockNumber, Config, Error, Event, MessageHash, MessageId,
    MessageRecord, MAX_PUBLIC_KEY_LEN,
};
use frame_support::traits::ConstU32;
use frame_support::BoundedVec;
use std::collections::HashMap;
use std::collections::HashSet;
use vstd::prelude::*;

verus! {

broadcast use vstd::std_specs::hash::group_hash_axioms;

/// The registry: profiles, spam bonds, message hashes and contact approvals,
/// with the constants it was set up with.
#[derive(Clone, Debug, PartialEq, Eq)]
pub struct Pallet {
    config: Config,
    user_profiles: HashMap<AccountId, BoundedVec<u8, ConstU32<256>>>,
    spam_bonds: HashMap<AccountId, Balance>,
    message_hashes: HashMap<MessageId, MessageRecord>,
    approved_contacts: HashMap<AccountId, HashSet<AccountId>>,
    contact_count: HashMap<AccountId, u32>,
    next_message_id: MessageId,
}

impl View for Pallet {
    type V = State;

    closed spec fn view(&self) -> State {
        State {
            config: self.config,
            profiles: Map::new(
                |who: AccountId| self.user_profiles@.contains_key(who),
                |who: AccountId| stored_key_bytes(self.user_profiles@[who]),
            ),
            bonds: self.spam_bonds@,
            messages: self.message_hashes@,
            contacts: Set::new(
                |pair: (AccountId, AccountId)|
                    self.approved_contacts@.contains_key(pair.0)
                        && self.approved_contacts@[pair.0]@.contains(pair.1),
            ),
            contact_count: self.contact_count@,
            next_message_id: self.next_message_id,
        }
    }
}

impl Pallet {
    /// A registry that has seen no call yet.
    pub fn new(config: Config) -> (pallet: Pallet)
        ensures
            pallet@ == State::new(config),
            pallet@.wf(),
    {
        let pallet = Pallet {
            config,
            user_profiles: HashMap::new(),
            spam_bonds: HashMap::new(),
            message_hashes: HashMap::new(),
            approved_contacts: HashMap::new(),
            contact_count: HashMap::new(),
            next_message_id: 0,
        };
        proof {
            assert(pallet@.profiles =~= Map::empty());
            assert(pallet@.contacts =~= Set::empty());
            assert(pallet@ =~= State::new(config));
            crate::theorems::new_is_wf(config);
        }
        pallet
    }

    /// Records `hash` as a message from `sender` to `recipient`, sent at block
    /// height `now`.
    ///
    /// The sender needs a profile and a bond, the recipient a profile. The
    /// record gets the next free id, which the notification carries; every
    /// record made before stays as it is. Once the counter shows the largest
    /// id, the ids are used up and the call is rejected.
    pub fn send_message_hash(
        &mut self,
        sender: AccountId,
        recipient: AccountId,
        hash: MessageHash,
        now: BlockNumber,
    ) -> (result: Result<Event, Error>)
        requires
            old(self)@.wf(),
        ensures
            final(self)@.wf(),
            final(self)@ == old(self)@.step(Call::SendMessageHash { sender, recipient, hash, now }),
            result == match old(self)@.error_of(
                Call::SendMessageHash { sender, recipient, hash, now },
            ) {
                Some(error) => Err::<Event, Error>(error),
                None => Ok(
                    Event::MessageSent {
                        message_id: old(self)@.next_message_id,
                        from: sender,
                        to: recipient,
                        hash,
                    },
                ),
            },
            forall|id: MessageId| #[trigger]
                old(self)@.messages.contains_key(id) ==> final(self)@.messages.contains_key(id)
                    && final(self)@.messages[id] == old(self)@.messages[id],
    {
        if !self.user_profiles.contains_key(&sender) {
            return Err(Error::ProfileNotFound);
        }
        if self.spam_bonds(sender) == 0 {
            return Err(Error::InsufficientBond);
        }
        if !self.user_profiles.contains_key(&recipient) {
            return Err(Error::RecipientNotFound);
        }
        if self.next_message_id == u64::MAX {
            return Err(Error::MessageIdsExhausted);
        }
        let message_id = self.next_message_id;
        self.next_message_id = message_id.saturating_add(1);
        self.message_hashes.insert(
            message_id,
            MessageRecord { content_hash: hash, created_at: now, sender, recipient },
        );
        proof {
            let call = Call::SendMessageHash { sender, recipient, hash, now };
            assert(final(self)@.profiles =~= old(self)@.profiles);
            assert(final(self)@.contacts =~= old(self)@.contacts);
            assert(final(self)@ =~= old(self)@.step(call));
            crate::theorems::step_preserves_wf(old(self)@, call);
        }
        Ok(Event::MessageSent { message_id, from: sender, to: recipient, hash })
    }

    /// Lets `who` approve `contact`.
    ///
    /// The two must differ and both have a profile. Approving a contact again
    /// changes nothing and is accepted; a new approval is rejected once `who`
    /// has as many contacts as the configuration allows.
    pub fn approve_contact(&mut self, who: AccountId, contact: AccountId) -> (result: Result<
        Event,
        Error,
    >)
        requires
            old(self)@.wf(),
        ensures
            final(self)@.wf(),
            final(self)@ == old(self)@.step(Call::ApproveContact { who, contact }),
            result == match old(self)@.error_of(Call::ApproveContact { who, contact }) {
                Some(error) => Err::<Event, Error>(error),
                None => Ok(Event::ContactApproved { approver: who, contact }),
            },
    {
        if who == contact {
            return Err(Error::CannotAddSelf);
        }
        if !self.user_profiles.contains_key(&who) {
            return Err(Error::ProfileNotFound);
        }
        if !self.user_profiles.contains_key(&contact) {
            return Err(Error::RecipientNotFound);
        }
        if !self.approved_contacts(who, contact) {
            let current_count = self.contact_count(who);
            if current_count >= self.config.max_contacts_per_user {
                return Err(Error::MaxContactsReached);
            }
            let mut contacts = match self.approved_contacts.remove(&who) {
                Some(contacts) => contacts,
                None => HashSet::new(),
            };
            contacts.insert(contact);
            self.approved_contacts.insert(who, contacts);
            self.contact_count.insert(who, current_count.saturating_add(1));
        }
        proof {
            let call = Call::ApproveContact { who, contact };
            assert(final(self)@.profiles =~= old(self)@.profiles);
            assert(final(self)@.contacts =~= old(self)@.step(call).contacts);
            assert(final(self)@ =~= old(self)@.step(call));
            crate::theorems::step_preserves_wf(old(self)@, call);
        }
        Ok(Event::ContactApproved { approver: who, contact })
    }

    /// The bond that the currency has to reserve before `public_key` can be
    /// registered for `who`, or why the registration is rejected without
    /// asking the currency: `who` has a profile already, or the key is empty
    /// or too large.
    pub fn registration_bond(&self, who: AccountId, public_key: &Vec<u8>) -> (bond: Result<
        Balance,
        Error,
    >)
        ensures
            bond == match self@.error_of(
                Call::RegisterProfile { who, public_key: public_key@, reserved: true },
            ) {
                Some(error) => Err::<Balance, Error>(error),
                None => Ok(self@.config.spam_bond),
            },
    {
        if self.user_profiles.contains_key(&who) {
            return Err(Error::ProfileAlreadyExists);
        }
        if let Some(error) = check_key(public_key) {
            return Err(error);
        }
        Ok(self.config.spam_bond)
    }

    /// Registers `public_key` for `who`, given whether the currency could
    /// reserve the spam bond of `who`.
    ///
    /// Where the request is valid and the bond was reserved, the bond is
    /// recorded and the profile stored.
    pub fn complete_registration(
        &mut self,
        who: AccountId,
        public_key: Vec<u8>,
        reserved: bool,
    ) -> (result: Result<Event, Error>)
        requires
            old(self)@.wf(),
        ensures
            final(self)@.wf(),
            final(self)@ == old(self)@.step(
                Call::RegisterProfile { who, public_key: public_key@, reserved },
            ),
            result == match old(self)@.error_of(
                Call::RegisterProfile { who, public_key: public_key@, reserved },
            ) {
                Some(error) => Err::<Event, Error>(error),
                None => Ok(Event::ProfileRegistered { who, public_key }),
            },
    {
        if let Err(error) = self.registration_bond(who, &public_key) {
            return Err(error);
        }
        if !reserved {
            return Err(Error::InsufficientBond);
        }
        let bounded_key = match bound_key(public_key.clone()) {
            Ok(bounded_key) => bounded_key,
            Err(_) => {
                return Err(Error::PublicKeyTooLarge);
            },
        };
        self.spam_bonds.insert(who, self.config.spam_bond);
        self.user_profiles.insert(who, bounded_key);
        proof {
            let call = Call::RegisterProfile { who, public_key: public_key@, reserved };
            assert(final(self)@.profiles =~= old(self)@.step(call).profiles);
            assert(final(self)@.contacts =~= old(self)@.contacts);
            assert(final(self)@ =~= old(self)@.step(call));
            crate::theorems::step_preserves_wf(old(self)@, call);
        }
        Ok(Event::ProfileRegistered { who, public_key })
    }

    /// Registers `public_key` for `who`.
    ///
    /// For a request that `registration_bond` lets pass, `currency` is asked
    /// to reserve that bond from `who`, and the registration goes on as
    /// `complete_registration` says for the currency's answer. Any other
    /// request is rejected and leaves the currency as it was.
    pub fn register_profile<C: Currency>(
        &mut self,
        currency: &mut C,
        who: AccountId,
        public_key: Vec<u8>,
    ) -> (result: Result<Event, Error>)
        requires
            old(self)@.wf(),
        ensures
            final(self)@.wf(),
            match old(self)@.error_of(
                Call::RegisterProfile { who, public_key: public_key@, reserved: true },
            ) {
                Some(error) => {
                    &&& result == Err::<Event, Error>(error)
                    &&& final(self)@ == old(self)@
                    &&& *final(currency) == *old(currency)
                },
                None => {
                    ||| {
                        &&& result == Ok::<Event, Error>(Event::ProfileRegistered { who, public_key })
                        &&& final(self)@ == old(self)@.step(
                            Call::RegisterProfile { who, public_key: public_key@, reserved: true },
                        )
                    }
                    ||| {
                        &&& result == Err::<Event, Error>(Error::InsufficientBond)
                        &&& final(self)@ == old(self)@
                    }
                },
            },
    {
        let bond = match self.registration_bond(who, &public_key) {
            Ok(bond) => bond,
            Err(error) => {
                return Err(error);
            },
        };
        let reserved = currency.reserve(who, bond);
        self.complete_registration(who, public_key, reserved)
    }

    /// Replaces the public key of `who` by `public_key`. The bond stays as it is.
    pub fn update_profile(&mut self, who: AccountId, public_key: Vec<u8>) -> (result: Result<
        Event,
        Error,
    >)
        requires
            old(self)@.wf(),
        ensures
            final(self)@.wf(),
            final(self)@ == old(self)@.step(Call::UpdateProfile { who, public_key: public_key@ }),
            result == match old(self)@.error_of(
                Call::UpdateProfile { who, public_key: public_key@ },
            ) {
                Some(error) => Err::<Event, Error>(error),
                None => Ok(Event::ProfileUpdated { who, public_key }),
            },
    {
        if !self.user_profiles.contains_key(&who) {
            return Err(Error::ProfileNotFound);
        }
        if let Some(error) = check_key(&public_key) {
            return Err(error);
        }
        let bounded_key = match bound_key(public_key.clone()) {
            Ok(bounded_key) => bounded_key,
            Err(_) => {
                return Err(Error::PublicKeyTooLarge);
            },
        };
        self.user_profiles.insert(who, bounded_key);
        proof {
            let call = Call::UpdateProfile { who, public_key: public_key@ };
            assert(final(self)@.profiles =~= old(self)@.step(call).profiles);
            assert(final(self)@.contacts =~= old(self)@.contacts);
            assert(final(self)@ =~= old(self)@.step(call));
            crate::theorems::step_preserves_wf(old(self)@, call);
        }
        Ok(Event::ProfileUpdated { who, public_key })
    }

    /// Whether message `message_id` can no longer be verified at block height
    /// `now`: it is unknown, or more than the expiry window has passed since
    /// it was recorded.
    pub fn is_message_expired(&self, message_id: MessageId, now: BlockNumber) -> (expired: bool)
        ensures
            expired == self@.is_message_expired(message_id, now),
    {
        match self.message_hashes.get(&message_id) {
            Some(record) => {
                let expiry = record.created_at.saturating_add(self.config.message_hash_expiry);
                now > expiry
            },
            None => true,
        }
    }

    /// Gives `who` the spam bond back: `currency` is asked to release the
    /// amount on record, and the record is cleared. An account with no bond on
    /// record is rejected, and the currency stays as it was.
    pub fn refund_bond<C: Currency>(&mut self, currency: &mut C, who: AccountId) -> (result: Result<
        Event,
        Error,
    >)
        requires
            old(self)@.wf(),
        ensures
            final(self)@.wf(),
            final(self)@ == old(self)@.step(Call::RefundBond { who }),
            result == match old(self)@.error_of(Call::RefundBond { who }) {
                Some(error) => Err::<Event, Error>(error),
                None => Ok(Event::BondRefunded { who, amount: old(self)@.bond_of(who) }),
            },
            !old(self)@.accepts(Call::RefundBond { who }) ==> *final(currency) == *old(currency),
    {
        let bond_amount = self.spam_bonds(who);
        if bond_amount == 0 {
            return Err(Error::BondAlreadyRefunded);
        }
        let _ = currency.unreserve(who, bond_amount);
        self.spam_bonds.remove(&who);
        proof {
            let call = Call::RefundBond { who };
            assert(final(self)@.profiles =~= old(self)@.profiles);
            assert(final(self)@.contacts =~= old(self)@.contacts);
            assert(final(self)@ =~= old(self)@.step(call));
            crate::theorems::step_preserves_wf(old(self)@, call);
        }
        Ok(Event::BondRefunded { who, amount: bond_amount })
    }

    /// Lets `who` withdraw the approval of `contact`. Where there is none,
    /// nothing changes and the call is accepted all the same.
    pub fn remove_contact(&mut self, who: AccountId, contact: AccountId) -> (result: Result<
        Event,
        Error,
    >)
        requires
            old(self)@.wf(),
        ensures
            final(self)@.wf(),
            final(self)@ == old(self)@.step(Call::RemoveContact { who, contact }),
            result == Ok::<Event, Error>(Event::ContactRemoved { remover: who, contact }),
    {
        if self.approved_contacts(who, contact) {
            let current_count = self.contact_count(who);
            let mut contacts = match self.approved_contacts.remove(&who) {
                Some(contacts) => contacts,
                None => HashSet::new(),
            };
            contacts.remove(&contact);
            self.approved_contacts.insert(who, contacts);
            self.contact_count.insert(who, current_count.saturating_sub(1));
        }
        proof {
            let call = Call::RemoveContact { who, contact };
            assert(final(self)@.profiles =~= old(self)@.profiles);
            assert(final(self)@.contacts =~= old(self)@.step(call).contacts);
            assert(final(self)@ =~= old(self)@.step(call));
            crate::theorems::step_preserves_wf(old(self)@, call);
        }
        Ok(Event::ContactRemoved { remover: who, contact })
    }

    /// Lets `challenger` flag message `message_id` as spam. The registry only
    /// tells the world: the record, the sender's bond and the expiry stay as
    /// they are.
    pub fn challenge_spam(&self, challenger: AccountId, message_id: MessageId) -> (result: Result<
        Event,
        Error,
    >)
        ensures
            result == match self@.error_of(Call::ChallengeSpam { challenger, message_id }) {
                Some(error) => Err::<Event, Error>(error),
                None => Ok(Event::SpamChallenged { message_id, challenger }),
            },
    {
        if !self.message_hashes.contains_key(&message_id) {
            return Err(Error::MessageNotFound);
        }
        Ok(Event::SpamChallenged { message_id, challenger })
    }

    /// Whether `hash` is the hash recorded as message `message_id`. An unknown
    /// message and one that has expired at block height `now` are rejected.
    pub fn verify_message_hash(
        &self,
        message_id: MessageId,
        hash: MessageHash,
        now: BlockNumber,
    ) -> (result: Result<bool, Error>)
        ensures
            result == self@.verify_message_hash(message_id, hash, now),
    {
        let stored_hash = match self.message_hashes.get(&message_id) {
            Some(record) => record.content_hash,
            None => {
                return Err(Error::MessageNotFound);
            },
        };
        if self.is_message_expired(message_id, now) {
            return Err(Error::MessageExpired);
        }
        Ok(hash_eq(&stored_hash, &hash))
    }

    /// The constants the registry was set up with.
    pub fn config(&self) -> (config: Config)
        ensures
            config == self@.config,
    {
        self.config
    }

    /// The public key of `who`, if `who` has a profile.
    pub fn user_profiles(&self, who: AccountId) -> (public_key: Option<Vec<u8>>)
        ensures
            public_key is Some == self@.has_profile(who),
            public_key is Some ==> public_key->Some_0@ == self@.profiles[who],
    {
        match self.user_profiles.get(&who) {
            Some(bounded_key) => Some(key_bytes(bounded_key)),
            None => None,
        }
    }

    /// The record of message `message_id`, if there is one.
    pub fn message_hashes(&self, message_id: MessageId) -> (record: Option<MessageRecord>)
        ensures
            record == if self@.messages.contains_key(message_id) {
                Some(self@.messages[message_id])
            } else {
                None
            },
    {
        match self.message_hashes.get(&message_id) {
            Some(record) => Some(*record),
            None => None,
        }
    }

    /// Whether `owner` has approved `contact`.
    pub fn approved_contacts(&self, owner: AccountId, contact: AccountId) -> (approved: bool)
        ensures
            approved == self@.is_approved(owner, contact),
    {
        match self.approved_contacts.get(&owner) {
            Some(contacts) => contacts.contains(&contact),
            None => false,
        }
    }

    /// The number of contacts recorded for `owner`.
    pub fn contact_count(&self, owner: AccountId) -> (count: u32)
        ensures
            count == self@.count_of(owner),
    {
        match self.contact_count.get(&owner) {
            Some(count) => *count,
            None => 0,
        }
    }

    /// The id that the next message will get.
    pub fn next_message_id(&self) -> (id: MessageId)
        ensures
            id == self@.next_message_id,
    {
        self.next_message_id
    }

    /// The bond recorded for `who`; zero where none is.
    pub fn spam_bonds(&self, who: AccountId) -> (amount: Balance)
        ensures
            amount == self@.bond_of(who),
    {
        match self.spam_bonds.get(&who) {
            Some(amount) => *amount,
            None => 0,
        }
    }
}

/// Why `public_key` cannot be stored, if it cannot: it is empty or too large.
pub fn check_key(public_key: &Vec<u8>) -> (error: Option<Error>)
    ensures
        error == key_error(public_key@),
{
    if public_key.len() == 0 {
        Some(Error::InvalidPublicKey)
    } else if public_key.len() > MAX_PUBLIC_KEY_LEN {
        Some(Error::PublicKeyTooLarge)
    } else {
        None
    }
}

} // verus!
