//! An on-chain signaling registry for off-chain encrypted messaging.
//!
//! The registry anchors public keys, message-hash proofs, contact approvals and
//! spam bonds. Messages themselves never reach it: only hashes and metadata do.
//!
//! [`state`] describes the registry as a state machine on mathematical values,
//! [`pallet`] is the executable registry, specified against that description,
//! and [`theorems`] states what holds of every registry.
//!
//! # Behaviour worth knowing
//!
//! - Every call is one transition: it is checked in full first, and a rejected
//!   call changes nothing.
//! - Message ids are assigned by the registry, counting up from zero. The
//!   largest id is never handed out: once the counter has reached it, the
//!   counter stays there and every further message is rejected with
//!   `MessageIdsExhausted`. So no id is used twice and no record is ever
//!   replaced.
//! - Sending needs a bond on record that is not zero; an account that had its
//!   bond refunded can no longer send.
//! - A profile is never deleted, so an account registers once. After a refund
//!   the profile stays and no new bond can be put up.
//! - Approvals are directed: that A approved B says nothing of B and A.
//!   Approving a contact twice is accepted and changes nothing, also when the
//!   list is full. Removing a contact that is not on the list is accepted and
//!   changes nothing.
//! - A spam challenge is a notification and nothing else: no bond moves.
//! - Expired records are kept; expiry only decides whether a hash can still be
//!   verified. A message that has expired never becomes verifiable again.
//! - The registry believes the currency. It records the bond it asked the
//!   currency to reserve and never compares its record with the currency's
//!   books.

pub mod currency;
pub mod keys;
pub mod pallet;
pub mod state;
pub mod theorems;
pub mod types;
pub mod weights;

pub use currency::Currency;
pub use pallet::Pallet;
pub use state::{Call, State};
pub use types::{
    AccountId, Balance, BlockNumber, Config, Error, Event, MessageHash, MessageId, MessageRecord,
};
pub use weights::WeightInfo;
