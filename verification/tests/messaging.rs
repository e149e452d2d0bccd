use pallet_messaging::{Config, Currency, Error, Event, Pallet};
use sp_core::H256;
use std::collections::HashMap;

/// A currency that keeps a free and a reserved balance for each account.
#[derive(Clone, Debug, PartialEq, Eq)]
struct Balances {
    accounts: HashMap<u64, (u128, u128)>,
}

impl Balances {
    fn new(balances: Vec<(u64, u128)>) -> Self {
        let mut accounts = HashMap::new();
        for (who, free) in balances {
            accounts.insert(who, (free, 0));
        }
        Balances { accounts }
    }

    fn free_balance(&self, who: u64) -> u128 {
        self.accounts.get(&who).map(|account| account.0).unwrap_or(0)
    }

    fn reserved_balance(&self, who: u64) -> u128 {
        self.accounts.get(&who).map(|account| account.1).unwrap_or(0)
    }
}

impl Currency for Balances {
    fn reserve(&mut self, who: u64, amount: u128) -> bool {
        let account = self.accounts.entry(who).or_insert((0, 0));
        if account.0 < amount {
            return false;
        }
        account.0 -= amount;
        account.1 += amount;
        true
    }

    fn unreserve(&mut self, who: u64, amount: u128) -> u128 {
        let account = self.accounts.entry(who).or_insert((0, 0));
        let released = amount.min(account.1);
        account.1 -= released;
        account.0 += released;
        amount - released
    }
}

/// The registry, the currency and the block height that every test starts from.
struct TestExt {
    messaging: Pallet,
    balances: Balances,
    block_number: u64,
}

fn test_config() -> Config {
    Config { spam_bond: 100, max_contacts_per_user: 100, message_hash_expiry: 1000 }
}

fn new_test_ext() -> TestExt {
    TestExt {
        messaging: Pallet::new(test_config()),
        balances: Balances::new(vec![
            (1, 1000),
            (2, 1000),
            (3, 1000),
            (4, 50), // Insufficient balance for bond
        ]),
        block_number: 1,
    }
}

/// Checks that a call was rejected with `error` and changed nothing.
fn assert_noop<T: std::fmt::Debug + PartialEq>(
    result: Result<T, Error>,
    error: Error,
    after: &TestExt,
    messaging_before: &Pallet,
    balances_before: &Balances,
) {
    assert_eq!(result, Err(error));
    assert_eq!(&after.messaging, messaging_before);
    assert_eq!(&after.balances, balances_before);
}

#[test]
fn register_profile_works() {
    let mut ext = new_test_ext();
    let public_key = vec![1, 2, 3, 4];

    // Register profile
    let result = ext.messaging.register_profile(&mut ext.balances, 1, public_key.clone());
    assert!(result.is_ok());

    // Verify profile exists
    assert!(ext.messaging.user_profiles(1).is_some());

    // Verify bond was reserved
    assert_eq!(ext.messaging.spam_bonds(1), 100);
    assert_eq!(ext.balances.reserved_balance(1), 100);

    // Verify event was emitted
    assert_eq!(result, Ok(Event::ProfileRegistered { who: 1, public_key }));
}

#[test]
fn register_profile_fails_if_already_exists() {
    let mut ext = new_test_ext();
    let public_key = vec![1, 2, 3, 4];

    // Register profile
    assert!(ext.messaging.register_profile(&mut ext.balances, 1, public_key.clone()).is_ok());

    // Try to register again
    let (messaging, balances) = (ext.messaging.clone(), ext.balances.clone());
    let result = ext.messaging.register_profile(&mut ext.balances, 1, public_key);
    assert_noop(result, Error::ProfileAlreadyExists, &ext, &messaging, &balances);
}

#[test]
fn register_profile_fails_with_insufficient_balance() {
    let mut ext = new_test_ext();
    let public_key = vec![1, 2, 3, 4];

    // Account 4 has only 50, needs 100 for bond
    let (messaging, balances) = (ext.messaging.clone(), ext.balances.clone());
    let result = ext.messaging.register_profile(&mut ext.balances, 4, public_key);
    assert_noop(result, Error::InsufficientBond, &ext, &messaging, &balances);
}

#[test]
fn register_profile_fails_with_invalid_public_key() {
    let mut ext = new_test_ext();
    let (messaging, balances) = (ext.messaging.clone(), ext.balances.clone());

    // Empty public key
    let result = ext.messaging.register_profile(&mut ext.balances, 1, vec![]);
    assert_noop(result, Error::InvalidPublicKey, &ext, &messaging, &balances);

    // Public key too large (> 256 bytes)
    let large_key = vec![1; 257];
    let result = ext.messaging.register_profile(&mut ext.balances, 1, large_key);
    assert_noop(result, Error::PublicKeyTooLarge, &ext, &messaging, &balances);
}

#[test]
fn update_profile_works() {
    let mut ext = new_test_ext();
    let public_key1 = vec![1, 2, 3, 4];
    let public_key2 = vec![5, 6, 7, 8];

    // Register profile
    assert!(ext.messaging.register_profile(&mut ext.balances, 1, public_key1).is_ok());

    // Update profile
    let result = ext.messaging.update_profile(1, public_key2.clone());
    assert!(result.is_ok());

    // Verify event was emitted
    assert_eq!(result, Ok(Event::ProfileUpdated { who: 1, public_key: public_key2 }));
}

#[test]
fn update_profile_fails_without_existing_profile() {
    let mut ext = new_test_ext();
    let public_key = vec![1, 2, 3, 4];

    let (messaging, balances) = (ext.messaging.clone(), ext.balances.clone());
    let result = ext.messaging.update_profile(1, public_key);
    assert_noop(result, Error::ProfileNotFound, &ext, &messaging, &balances);
}

#[test]
fn send_message_hash_works() {
    let mut ext = new_test_ext();
    let public_key = vec![1, 2, 3, 4];

    // Register both sender and recipient
    assert!(ext.messaging.register_profile(&mut ext.balances, 1, public_key.clone()).is_ok());
    assert!(ext.messaging.register_profile(&mut ext.balances, 2, public_key).is_ok());

    // Send message hash
    let message_hash = H256::from([1; 32]);
    let result =
        ext.messaging.send_message_hash(1, 2, message_hash.to_fixed_bytes(), ext.block_number);
    assert!(result.is_ok());

    // Verify message hash was stored
    assert!(ext.messaging.message_hashes(0).is_some());

    // Verify event was emitted
    assert_eq!(
        result,
        Ok(Event::MessageSent {
            message_id: 0,
            from: 1,
            to: 2,
            hash: message_hash.to_fixed_bytes(),
        })
    );

    // Verify message ID counter incremented
    assert_eq!(ext.messaging.next_message_id(), 1);
}

#[test]
fn send_message_hash_fails_without_sender_profile() {
    let mut ext = new_test_ext();
    let message_hash = H256::from([1; 32]);

    let (messaging, balances) = (ext.messaging.clone(), ext.balances.clone());
    let result =
        ext.messaging.send_message_hash(1, 2, message_hash.to_fixed_bytes(), ext.block_number);
    assert_noop(result, Error::ProfileNotFound, &ext, &messaging, &balances);
}

#[test]
fn send_message_hash_fails_without_recipient_profile() {
    let mut ext = new_test_ext();
    let public_key = vec![1, 2, 3, 4];

    // Only register sender
    assert!(ext.messaging.register_profile(&mut ext.balances, 1, public_key).is_ok());

    let message_hash = H256::from([1; 32]);
    let (messaging, balances) = (ext.messaging.clone(), ext.balances.clone());
    let result =
        ext.messaging.send_message_hash(1, 2, message_hash.to_fixed_bytes(), ext.block_number);
    assert_noop(result, Error::RecipientNotFound, &ext, &messaging, &balances);
}

#[test]
fn approve_contact_works() {
    let mut ext = new_test_ext();
    let public_key = vec![1, 2, 3, 4];

    // Register both users
    assert!(ext.messaging.register_profile(&mut ext.balances, 1, public_key.clone()).is_ok());
    assert!(ext.messaging.register_profile(&mut ext.balances, 2, public_key).is_ok());

    // Approve contact
    let result = ext.messaging.approve_contact(1, 2);
    assert!(result.is_ok());

    // Verify contact was approved
    assert!(ext.messaging.approved_contacts(1, 2));

    // Verify contact count increased
    assert_eq!(ext.messaging.contact_count(1), 1);

    // Verify event was emitted
    assert_eq!(result, Ok(Event::ContactApproved { approver: 1, contact: 2 }));
}

#[test]
fn approve_contact_fails_for_self() {
    let mut ext = new_test_ext();
    let public_key = vec![1, 2, 3, 4];

    assert!(ext.messaging.register_profile(&mut ext.balances, 1, public_key).is_ok());

    let (messaging, balances) = (ext.messaging.clone(), ext.balances.clone());
    let result = ext.messaging.approve_contact(1, 1);
    assert_noop(result, Error::CannotAddSelf, &ext, &messaging, &balances);
}

#[test]
fn approve_contact_fails_without_profile() {
    let mut ext = new_test_ext();

    let (messaging, balances) = (ext.messaging.clone(), ext.balances.clone());
    let result = ext.messaging.approve_contact(1, 2);
    assert_noop(result, Error::ProfileNotFound, &ext, &messaging, &balances);
}

#[test]
fn approve_contact_fails_if_contact_doesnt_exist() {
    let mut ext = new_test_ext();
    let public_key = vec![1, 2, 3, 4];

    assert!(ext.messaging.register_profile(&mut ext.balances, 1, public_key).is_ok());

    let (messaging, balances) = (ext.messaging.clone(), ext.balances.clone());
    let result = ext.messaging.approve_contact(1, 2);
    assert_noop(result, Error::RecipientNotFound, &ext, &messaging, &balances);
}

#[test]
fn remove_contact_works() {
    let mut ext = new_test_ext();
    let public_key = vec![1, 2, 3, 4];

    // Register both users
    assert!(ext.messaging.register_profile(&mut ext.balances, 1, public_key.clone()).is_ok());
    assert!(ext.messaging.register_profile(&mut ext.balances, 2, public_key).is_ok());

    // Approve contact
    assert!(ext.messaging.approve_contact(1, 2).is_ok());
    assert_eq!(ext.messaging.contact_count(1), 1);

    // Remove contact
    let result = ext.messaging.remove_contact(1, 2);
    assert!(result.is_ok());

    // Verify contact was removed
    assert!(!ext.messaging.approved_contacts(1, 2));

    // Verify contact count decreased
    assert_eq!(ext.messaging.contact_count(1), 0);

    // Verify event was emitted
    assert_eq!(result, Ok(Event::ContactRemoved { remover: 1, contact: 2 }));
}

#[test]
fn challenge_spam_works() {
    let mut ext = new_test_ext();
    let public_key = vec![1, 2, 3, 4];

    // Register users
    assert!(ext.messaging.register_profile(&mut ext.balances, 1, public_key.clone()).is_ok());
    assert!(ext.messaging.register_profile(&mut ext.balances, 2, public_key).is_ok());

    // Send message
    let message_hash = H256::from([1; 32]);
    assert!(ext
        .messaging
        .send_message_hash(1, 2, message_hash.to_fixed_bytes(), ext.block_number)
        .is_ok());

    // Challenge as spam
    let result = ext.messaging.challenge_spam(3, 0);
    assert!(result.is_ok());

    // Verify event was emitted
    assert_eq!(result, Ok(Event::SpamChallenged { message_id: 0, challenger: 3 }));
}

#[test]
fn challenge_spam_fails_for_nonexistent_message() {
    let ext = new_test_ext();

    let (messaging, balances) = (ext.messaging.clone(), ext.balances.clone());
    let result = ext.messaging.challenge_spam(1, 999);
    assert_noop(result, Error::MessageNotFound, &ext, &messaging, &balances);
}

#[test]
fn refund_bond_works() {
    let mut ext = new_test_ext();
    let public_key = vec![1, 2, 3, 4];

    // Register profile
    assert!(ext.messaging.register_profile(&mut ext.balances, 1, public_key).is_ok());

    // Verify bond was reserved
    assert_eq!(ext.balances.reserved_balance(1), 100);
    assert_eq!(ext.balances.free_balance(1), 900);

    // Refund bond
    let result = ext.messaging.refund_bond(&mut ext.balances, 1);
    assert!(result.is_ok());

    // Verify bond was unreserved
    assert_eq!(ext.balances.reserved_balance(1), 0);
    assert_eq!(ext.balances.free_balance(1), 1000);

    // Verify bond record was removed
    assert_eq!(ext.messaging.spam_bonds(1), 0);

    // Verify event was emitted
    assert_eq!(result, Ok(Event::BondRefunded { who: 1, amount: 100 }));
}

#[test]
fn refund_bond_fails_if_already_refunded() {
    let mut ext = new_test_ext();
    let public_key = vec![1, 2, 3, 4];

    // Register profile
    assert!(ext.messaging.register_profile(&mut ext.balances, 1, public_key).is_ok());

    // Refund bond
    assert!(ext.messaging.refund_bond(&mut ext.balances, 1).is_ok());

    // Try to refund again
    let (messaging, balances) = (ext.messaging.clone(), ext.balances.clone());
    let result = ext.messaging.refund_bond(&mut ext.balances, 1);
    assert_noop(result, Error::BondAlreadyRefunded, &ext, &messaging, &balances);
}

#[test]
fn verify_message_hash_works() {
    let mut ext = new_test_ext();
    let public_key = vec![1, 2, 3, 4];

    // Register users
    assert!(ext.messaging.register_profile(&mut ext.balances, 1, public_key.clone()).is_ok());
    assert!(ext.messaging.register_profile(&mut ext.balances, 2, public_key).is_ok());

    // Send message
    let message_hash = H256::from([1; 32]);
    assert!(ext
        .messaging
        .send_message_hash(1, 2, message_hash.to_fixed_bytes(), ext.block_number)
        .is_ok());

    // Verify correct hash
    assert!(ext
        .messaging
        .verify_message_hash(0, message_hash.to_fixed_bytes(), ext.block_number)
        .is_ok());
    assert_eq!(
        ext.messaging
            .verify_message_hash(0, message_hash.to_fixed_bytes(), ext.block_number)
            .unwrap(),
        true
    );

    // Verify incorrect hash
    let wrong_hash = H256::from([2; 32]);
    assert_eq!(
        ext.messaging
            .verify_message_hash(0, wrong_hash.to_fixed_bytes(), ext.block_number)
            .unwrap(),
        false
    );
}

#[test]
fn message_expiry_works() {
    let mut ext = new_test_ext();
    let public_key = vec![1, 2, 3, 4];

    // Register users
    assert!(ext.messaging.register_profile(&mut ext.balances, 1, public_key.clone()).is_ok());
    assert!(ext.messaging.register_profile(&mut ext.balances, 2, public_key).is_ok());

    // Send message at block 1
    let message_hash = H256::from([1; 32]);
    assert!(ext
        .messaging
        .send_message_hash(1, 2, message_hash.to_fixed_bytes(), ext.block_number)
        .is_ok());

    // Message should not be expired yet
    assert!(!ext.messaging.is_message_expired(0, ext.block_number));

    // Advance blocks past expiry (MessageHashExpiry = 1000)
    ext.block_number = 1002;

    // Message should now be expired
    assert!(ext.messaging.is_message_expired(0, ext.block_number));

    // Verification should fail for expired message
    let (messaging, balances) = (ext.messaging.clone(), ext.balances.clone());
    let result =
        ext.messaging.verify_message_hash(0, message_hash.to_fixed_bytes(), ext.block_number);
    assert_noop(result, Error::MessageExpired, &ext, &messaging, &balances);
}

#[test]
fn contact_limit_works() {
    let mut ext = new_test_ext();
    // Every account that registers below needs the bond.
    ext.balances = Balances::new((1..7).map(|who| (who, 1000)).collect());
    let public_key = vec![1, 2, 3, 4];

    // Register account 1
    assert!(ext.messaging.register_profile(&mut ext.balances, 1, public_key.clone()).is_ok());

    // MaxContactsPerUser is 100, but we'll test with realistic numbers
    // Register and approve 5 contacts
    for i in 2..7 {
        assert!(ext.messaging.register_profile(&mut ext.balances, i, public_key.clone()).is_ok());
        assert!(ext.messaging.approve_contact(1, i).is_ok());
    }

    // Verify contact count
    assert_eq!(ext.messaging.contact_count(1), 5);
}
