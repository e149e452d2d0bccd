//! What holds of the registry whatever calls it sees.

use crate::state::{Call, State};
use crate::types::{
    AccountId, BlockNumber, Config, Error, MessageHash, MessageId, MessageRecord,
};
use vstd::prelude::*;

verus! {

/// Where the approvals are the same, each owner has the same contacts.
proof fn contacts_kept(pre: State, post: State)
    requires
        post.contacts == pre.contacts,
    ensures
        forall|owner: AccountId| #[trigger] post.contacts_of(owner) == pre.contacts_of(owner),
{
    assert forall|owner: AccountId| #[trigger] post.contacts_of(owner) == pre.contacts_of(owner) by {
        assert(post.contacts_of(owner) =~= pre.contacts_of(owner));
    }
}

/// After one more approval by `who`, the contacts of `who` are the former
/// ones and the new one; every other owner has the same contacts as before.
proof fn contacts_after_insert(pre: State, post: State, who: AccountId, contact: AccountId)
    requires
        post.contacts == pre.contacts.insert((who, contact)),
    ensures
        post.contacts_of(who) == pre.contacts_of(who).insert(contact),
        forall|owner: AccountId|
            owner != who ==> #[trigger] post.contacts_of(owner) == pre.contacts_of(owner),
{
    assert(post.contacts_of(who) =~= pre.contacts_of(who).insert(contact));
    assert forall|owner: AccountId| owner != who implies #[trigger] post.contacts_of(owner)
        == pre.contacts_of(owner) by {
        assert(post.contacts_of(owner) =~= pre.contacts_of(owner));
    }
}

/// After `who` has withdrawn an approval, the contacts of `who` are the
/// former ones without that one; every other owner has the same contacts as
/// before.
proof fn contacts_after_remove(pre: State, post: State, who: AccountId, contact: AccountId)
    requires
        post.contacts == pre.contacts.remove((who, contact)),
    ensures
        post.contacts_of(who) == pre.contacts_of(who).remove(contact),
        forall|owner: AccountId|
            owner != who ==> #[trigger] post.contacts_of(owner) == pre.contacts_of(owner),
{
    assert(post.contacts_of(who) =~= pre.contacts_of(who).remove(contact));
    assert forall|owner: AccountId| owner != who implies #[trigger] post.contacts_of(owner)
        == pre.contacts_of(owner) by {
        assert(post.contacts_of(owner) =~= pre.contacts_of(owner));
    }
}

/// No call breaks the registry's invariant: whether it is accepted or not, a
/// well-formed registry is well-formed afterwards.
pub proof fn step_preserves_wf(pre: State, call: Call)
    requires
        pre.wf(),
    ensures
        pre.step(call).wf(),
{
    let post = pre.step(call);
    match call {
        Call::ApproveContact { who, contact } => {
            if pre.accepts(call) && !pre.is_approved(who, contact) {
                contacts_after_insert(pre, post, who, contact);
                assert(!pre.contacts_of(who).contains(contact));
            }
        },
        Call::RemoveContact { who, contact } => {
            if pre.is_approved(who, contact) {
                contacts_after_remove(pre, post, who, contact);
                assert(pre.contacts_of(who).contains(contact));
            }
        },
        _ => {
            contacts_kept(pre, post);
        },
    }
}

/// The registry before any call is well-formed.
pub proof fn new_is_wf(config: Config)
    ensures
        State::new(config).wf(),
{
    let fresh = State::new(config);
    assert forall|owner: AccountId|
        (#[trigger] fresh.contacts_of(owner)).finite() && fresh.contacts_of(owner).len()
            == 0 by {
        assert(fresh.contacts_of(owner) =~= Set::empty());
    }
}

/// No sequence of calls breaks the registry's invariant.
pub proof fn run_preserves_wf(pre: State, calls: Seq<Call>)
    requires
        pre.wf(),
    ensures
        pre.run(calls).wf(),
    decreases calls.len(),
{
    if calls.len() > 0 {
        run_preserves_wf(pre, calls.drop_last());
        step_preserves_wf(pre.run(calls.drop_last()), calls.last());
    }
}

/// A rejected call leaves the registry exactly as it was: nothing is applied
/// in part.
pub proof fn rejected_call_changes_nothing(pre: State, call: Call)
    requires
        !pre.accepts(call),
    ensures
        pre.step(call) == pre,
{
}

/// A spam challenge changes nothing, accepted or not: the message record, the
/// sender's bond and the expiry stay as they were.
pub proof fn challenge_changes_nothing(pre: State, challenger: AccountId, message_id: MessageId)
    ensures
        pre.step(Call::ChallengeSpam { challenger, message_id }) == pre,
{
}

/// The constants a registry was set up with stay what they are.
pub proof fn config_never_changes(pre: State, calls: Seq<Call>)
    ensures
        pre.run(calls).config == pre.config,
    decreases calls.len(),
{
    if calls.len() > 0 {
        config_never_changes(pre, calls.drop_last());
    }
}

/// A profile is never removed: an account that has one has one after any
/// calls.
pub proof fn profiles_are_permanent(pre: State, who: AccountId, calls: Seq<Call>)
    requires
        pre.has_profile(who),
    ensures
        pre.run(calls).has_profile(who),
    decreases calls.len(),
{
    if calls.len() > 0 {
        profiles_are_permanent(pre, who, calls.drop_last());
    }
}

/// An account registers once: after an accepted registration, every later
/// attempt to register the same account is rejected as a duplicate, whatever
/// calls came in between (a refund of the bond among them), whatever key it
/// brings and whatever the currency says.
pub proof fn second_registration_is_rejected(
    pre: State,
    who: AccountId,
    first_key: Seq<u8>,
    calls: Seq<Call>,
    second_key: Seq<u8>,
    reserved: bool,
)
    requires
        pre.accepts(Call::RegisterProfile { who, public_key: first_key, reserved: true }),
    ensures
        pre.step(Call::RegisterProfile { who, public_key: first_key, reserved: true }).run(
            calls,
        ).error_of(Call::RegisterProfile { who, public_key: second_key, reserved }) == Some(
            Error::ProfileAlreadyExists,
        ),
{
    profiles_are_permanent(
        pre.step(Call::RegisterProfile { who, public_key: first_key, reserved: true }),
        who,
        calls,
    );
}

/// Whether no call of `calls` asks to register `who`.
pub open spec fn never_registers(calls: Seq<Call>, who: AccountId) -> bool {
    forall|i: int|
        0 <= i < calls.len() ==> !((#[trigger] calls[i]) matches Call::RegisterProfile {
            who: registered,
            ..
        } && registered == who)
}

/// An account gets a profile by registering only: as long as no call asked to
/// register it, it has none, and an update of its profile is rejected because
/// none is found.
pub proof fn update_needs_registration(
    pre: State,
    who: AccountId,
    calls: Seq<Call>,
    public_key: Seq<u8>,
)
    requires
        !pre.has_profile(who),
        never_registers(calls, who),
    ensures
        !pre.run(calls).has_profile(who),
        pre.run(calls).error_of(Call::UpdateProfile { who, public_key }) == Some(
            Error::ProfileNotFound,
        ),
    decreases calls.len(),
{
    if calls.len() > 0 {
        let earlier = calls.drop_last();
        assert(never_registers(earlier, who)) by {
            assert forall|i: int| 0 <= i < earlier.len() implies earlier[i] == calls[i] by {}
        }
        update_needs_registration(pre, who, earlier, public_key);
        assert(calls.last() == calls[calls.len() - 1]);
    }
}

/// In a registry that has seen no call, every update is rejected because no
/// profile is found.
pub proof fn update_before_registration_fails(config: Config, who: AccountId, public_key: Seq<u8>)
    ensures
        State::new(config).error_of(Call::UpdateProfile { who, public_key }) == Some(
            Error::ProfileNotFound,
        ),
{
}

/// The id counter never goes down.
pub proof fn next_message_id_never_decreases(pre: State, calls: Seq<Call>)
    ensures
        pre.next_message_id <= pre.run(calls).next_message_id,
    decreases calls.len(),
{
    if calls.len() > 0 {
        next_message_id_never_decreases(pre, calls.drop_last());
    }
}

/// The id counter moves by one for each message recorded and by nothing else.
pub proof fn next_message_id_counts_messages(pre: State, calls: Seq<Call>)
    ensures
        pre.run(calls).next_message_id == pre.next_message_id + pre.messages_sent(calls),
    decreases calls.len(),
{
    if calls.len() > 0 {
        next_message_id_counts_messages(pre, calls.drop_last());
    }
}

/// In a registry that started empty, the id counter equals the number of
/// messages recorded so far.
pub proof fn next_message_id_is_number_of_messages(config: Config, calls: Seq<Call>)
    ensures
        State::new(config).run(calls).next_message_id == State::new(config).messages_sent(calls),
{
    next_message_id_counts_messages(State::new(config), calls);
}

/// An accepted message gets the id the counter shows, which lies below the
/// largest id, and the counter then shows the next one: ids start where the
/// counter starts and leave no gap.
pub proof fn message_gets_next_id(
    pre: State,
    sender: AccountId,
    recipient: AccountId,
    hash: MessageHash,
    now: BlockNumber,
)
    requires
        pre.accepts(Call::SendMessageHash { sender, recipient, hash, now }),
    ensures
        ({
            let post = pre.step(Call::SendMessageHash { sender, recipient, hash, now });
            &&& pre.next_message_id < u64::MAX
            &&& post.messages.contains_key(pre.next_message_id)
            &&& post.messages[pre.next_message_id] == MessageRecord {
                content_hash: hash,
                created_at: now,
                sender,
                recipient,
            }
            &&& post.next_message_id == pre.next_message_id + 1
        }),
{
}

/// Once the counter shows the largest id, no message is accepted any more,
/// whoever sends it; the counter stays where it is.
pub proof fn exhausted_ids_reject_every_message(
    pre: State,
    sender: AccountId,
    recipient: AccountId,
    hash: MessageHash,
    now: BlockNumber,
    calls: Seq<Call>,
)
    requires
        pre.next_message_id == u64::MAX,
    ensures
        !pre.run(calls).accepts(Call::SendMessageHash { sender, recipient, hash, now }),
        pre.run(calls).next_message_id == u64::MAX,
        pre.run(calls).messages == pre.messages,
    decreases calls.len(),
{
    if calls.len() > 0 {
        exhausted_ids_reject_every_message(pre, sender, recipient, hash, now, calls.drop_last());
    }
}

/// Ids are handed out in strictly increasing order: once a message has got
/// an id, the counter stays above that id for good, so every later message
/// gets a larger one and no id is used twice.
pub proof fn message_ids_increase(
    pre: State,
    sender: AccountId,
    recipient: AccountId,
    hash: MessageHash,
    now: BlockNumber,
    calls: Seq<Call>,
)
    requires
        pre.accepts(Call::SendMessageHash { sender, recipient, hash, now }),
    ensures
        pre.next_message_id < pre.step(Call::SendMessageHash { sender, recipient, hash, now }).run(
            calls,
        ).next_message_id,
{
    next_message_id_never_decreases(
        pre.step(Call::SendMessageHash { sender, recipient, hash, now }),
        calls,
    );
}

/// Ids leave no gap: in a registry that started empty, every id below the
/// counter has a record.
pub proof fn message_ids_have_no_gaps(config: Config, calls: Seq<Call>, id: MessageId)
    requires
        id < State::new(config).run(calls).next_message_id,
    ensures
        State::new(config).run(calls).messages.contains_key(id),
{
    new_is_wf(config);
    run_preserves_wf(State::new(config), calls);
}

/// A record is never changed or removed, whatever calls follow.
pub proof fn message_records_are_immutable(pre: State, calls: Seq<Call>, id: MessageId)
    requires
        pre.wf(),
        pre.messages.contains_key(id),
    ensures
        pre.run(calls).messages.contains_key(id),
        pre.run(calls).messages[id] == pre.messages[id],
    decreases calls.len(),
{
    if calls.len() > 0 {
        message_records_are_immutable(pre, calls.drop_last(), id);
        next_message_id_never_decreases(pre, calls.drop_last());
    }
}

/// Once expired, always expired: a message that has expired at one block
/// height has expired at every later one, whatever calls came in between.
pub proof fn expired_messages_stay_expired(
    pre: State,
    id: MessageId,
    earlier: BlockNumber,
    calls: Seq<Call>,
    later: BlockNumber,
)
    requires
        pre.wf(),
        pre.messages.contains_key(id),
        pre.is_message_expired(id, earlier),
        earlier <= later,
    ensures
        pre.run(calls).is_message_expired(id, later),
{
    message_records_are_immutable(pre, calls, id);
    config_never_changes(pre, calls);
}

/// A recorded message can be verified from then on, whatever calls follow:
/// until its expiry window has passed, a candidate verifies exactly if it is
/// the hash that was sent; afterwards the message counts as expired and
/// verification is rejected, whatever the candidate.
pub proof fn sent_hash_verifies_until_expiry(
    pre: State,
    sender: AccountId,
    recipient: AccountId,
    hash: MessageHash,
    sent_at: BlockNumber,
    calls: Seq<Call>,
    candidate: MessageHash,
    now: BlockNumber,
)
    requires
        pre.wf(),
        pre.accepts(Call::SendMessageHash { sender, recipient, hash, now: sent_at }),
    ensures
        ({
            let id = pre.next_message_id;
            let later = pre.step(
                Call::SendMessageHash { sender, recipient, hash, now: sent_at },
            ).run(calls);
            let expired = now > sent_at + pre.config.message_hash_expiry;
            &&& later.is_message_expired(id, now) == expired
            &&& later.verify_message_hash(id, candidate, now) == if expired {
                Err::<bool, Error>(Error::MessageExpired)
            } else {
                Ok(candidate == hash)
            }
        }),
{
    let send = Call::SendMessageHash { sender, recipient, hash, now: sent_at };
    step_preserves_wf(pre, send);
    message_records_are_immutable(pre.step(send), calls, pre.next_message_id);
    config_never_changes(pre.step(send), calls);
}

/// Approving the same contact twice is the same as approving it once: the
/// second approval is accepted if the first was, and leaves the approvals
/// and the contact count as the first left them.
pub proof fn approval_is_idempotent(pre: State, who: AccountId, contact: AccountId)
    ensures
        ({
            let call = Call::ApproveContact { who, contact };
            &&& pre.step(call).step(call) == pre.step(call)
            &&& pre.step(call).count_of(who) == pre.step(call).step(call).count_of(who)
            &&& pre.accepts(call) ==> pre.step(call).accepts(call)
        }),
{
}

/// The contact count of an account is the number of contacts it has
/// approved, and never exceeds the configured maximum.
pub proof fn contact_count_is_bounded(config: Config, calls: Seq<Call>, owner: AccountId)
    ensures
        ({
            let state = State::new(config).run(calls);
            &&& state.contacts_of(owner).finite()
            &&& state.count_of(owner) == state.contacts_of(owner).len()
            &&& state.count_of(owner) <= config.max_contacts_per_user
        }),
{
    new_is_wf(config);
    run_preserves_wf(State::new(config), calls);
    config_never_changes(State::new(config), calls);
    let state = State::new(config).run(calls);
    assert(state.contacts_of(owner).finite());
}

/// The key read after an accepted registration is the key registered.
pub proof fn registered_key_reads_back(
    pre: State,
    who: AccountId,
    public_key: Seq<u8>,
    reserved: bool,
)
    requires
        pre.accepts(Call::RegisterProfile { who, public_key, reserved }),
    ensures
        pre.step(Call::RegisterProfile { who, public_key, reserved }).has_profile(who),
        pre.step(Call::RegisterProfile { who, public_key, reserved }).profiles[who] == public_key,
{
}

/// The key read after an accepted update is the new key, and so no longer
/// the former one unless the two are equal.
pub proof fn updated_key_reads_back(pre: State, who: AccountId, public_key: Seq<u8>)
    requires
        pre.accepts(Call::UpdateProfile { who, public_key }),
    ensures
        pre.step(Call::UpdateProfile { who, public_key }).has_profile(who),
        pre.step(Call::UpdateProfile { who, public_key }).profiles[who] == public_key,
        public_key != pre.profiles[who] ==> pre.step(
            Call::UpdateProfile { who, public_key },
        ).profiles[who] != pre.profiles[who],
{
}

} // verus!
