//! What holds of every feed, whatever is asked of it and by whom.

use crate::datafeed::FeedView;
use crate::errors::OracleErrors;
use crate::oracle::without;
use anchor_lang::prelude::Pubkey;
use vstd::prelude::*;

verus! {

/// One of the operations on an existing feed, with what it is asked to do.
pub enum Operation {
    GetDataFeed,
    SetValue { value: i32, timestamp: u32 },
    SetLicense { license: u8 },
    AddSubscription { address: Pubkey },
    RevokeSubscription { address: Pubkey },
    SetAuditor { address: Pubkey },
    SetLimit { min: i32, max: i32 },
}

/// An operation together with who asks for it.
pub struct Call {
    pub caller: Pubkey,
    pub operation: Operation,
}

impl FeedView {
    /// Whether the feed refuses `call`.
    pub open spec fn refuses(self, call: Call) -> bool {
        match call.operation {
            Operation::GetDataFeed => self.read_by(call.caller) is Err,
            Operation::SetLimit { .. } => self.owner_or_auditor_only(call.caller) is Err,
            _ => self.owner_only(call.caller) is Err,
        }
    }

    /// The record after `call`.
    pub open spec fn after(self, call: Call) -> FeedView {
        match call.operation {
            Operation::GetDataFeed => self,
            Operation::SetValue { value, timestamp } => self.after_set_value(
                call.caller,
                value,
                timestamp,
            ),
            Operation::SetLicense { license } => self.after_set_license(call.caller, license),
            Operation::AddSubscription { address } => self.after_add_subscription(
                call.caller,
                address,
            ),
            Operation::RevokeSubscription { address } => self.after_revoke_subscription(
                call.caller,
                address,
            ),
            Operation::SetAuditor { address } => self.after_set_auditor(call.caller, address),
            Operation::SetLimit { min, max } => self.after_set_limit(call.caller, min, max),
        }
    }

    /// The record after `calls`, made one after the other.
    pub open spec fn after_all(self, calls: Seq<Call>) -> FeedView
        decreases calls.len(),
    {
        if calls.len() == 0 {
            self
        } else {
            self.after_all(calls.drop_last()).after(calls.last())
        }
    }
}

/// Taking `address` out of `keys` keeps every other key of `keys` and adds
/// none.
pub proof fn without_keeps_the_others(keys: Seq<Pubkey>, address: Pubkey, key: Pubkey)
    ensures
        without(keys, address).contains(key) <==> keys.contains(key) && key != address,
    decreases keys.len(),
{
    reveal(Seq::filter);
    let kept = without(keys, address);
    if keys.len() > 0 {
        let rest = keys.drop_last();
        let kept_rest = without(rest, address);
        without_keeps_the_others(rest, address, key);
        if kept.contains(key) {
            let i = choose|i: int| 0 <= i < kept.len() && kept[i] == key;
            if keys.last() != address && i == kept.len() - 1 {
                assert(keys[keys.len() - 1] == key);
            } else {
                assert(kept_rest[i] == key);
                let j = choose|j: int| 0 <= j < rest.len() && rest[j] == key;
                assert(keys[j] == key);
            }
        }
        if keys.contains(key) && key != address {
            let j = choose|j: int| 0 <= j < keys.len() && keys[j] == key;
            if j == keys.len() - 1 {
                assert(kept[kept.len() - 1] == key);
            } else {
                assert(rest[j] == key);
                let i = choose|i: int| 0 <= i < kept_rest.len() && kept_rest[i] == key;
                assert(kept[i] == key);
            }
        }
    }
}

/// Taking out a key that is not there changes nothing.
pub proof fn without_absent_is_same(keys: Seq<Pubkey>, address: Pubkey)
    requires
        !keys.contains(address),
    ensures
        without(keys, address) == keys,
    decreases keys.len(),
{
    reveal(Seq::filter);
    if keys.len() > 0 {
        let rest = keys.drop_last();
        assert(keys[keys.len() - 1] != address);
        assert forall|i: int| 0 <= i < rest.len() implies rest[i] != address by {
            assert(keys[i] == rest[i]);
        }
        without_absent_is_same(rest, address);
        assert(rest.push(keys.last()) == keys);
    }
}

/// Taking a key out of a list without repetitions leaves one without
/// repetitions.
pub proof fn without_keeps_no_duplicates(keys: Seq<Pubkey>, address: Pubkey)
    requires
        keys.no_duplicates(),
    ensures
        without(keys, address).no_duplicates(),
    decreases keys.len(),
{
    reveal(Seq::filter);
    if keys.len() > 0 {
        let rest = keys.drop_last();
        without_keeps_no_duplicates(rest, address);
        without_keeps_the_others(rest, address, keys.last());
        if rest.contains(keys.last()) {
            let j = choose|j: int| 0 <= j < rest.len() && rest[j] == keys.last();
            assert(keys[j] == keys[keys.len() - 1]);
        }
    }
}

/// A feed starts without a subscriber listed twice.
pub proof fn initial_is_well_formed(owner: Pubkey)
    ensures
        FeedView::initial(owner).well_formed(),
        FeedView::initial(owner).owner == owner,
{
}

/// No call changes who owns the feed, and none lists a subscriber twice.
pub proof fn call_keeps_owner_and_form(feed: FeedView, call: Call)
    ensures
        feed.after(call).owner == feed.owner,
        feed.well_formed() ==> feed.after(call).well_formed(),
{
    match call.operation {
        Operation::RevokeSubscription { address } => {
            if feed.well_formed() {
                without_keeps_no_duplicates(feed.subscribers, address);
            }
        },
        _ => {},
    }
}

/// Whatever calls are made and by whomever, in whatever order, the owner
/// stays who it was and no subscriber gets listed twice.
pub proof fn owner_never_changes(feed: FeedView, calls: Seq<Call>)
    ensures
        feed.after_all(calls).owner == feed.owner,
        feed.well_formed() ==> feed.after_all(calls).well_formed(),
    decreases calls.len(),
{
    if calls.len() > 0 {
        owner_never_changes(feed, calls.drop_last());
        call_keeps_owner_and_form(feed.after_all(calls.drop_last()), calls.last());
    }
}

/// The owner of a feed is who created it, whatever has been asked of the
/// feed since.
pub proof fn owner_is_who_initialized(owner: Pubkey, calls: Seq<Call>)
    ensures
        FeedView::initial(owner).after_all(calls).owner == owner,
        FeedView::initial(owner).after_all(calls).well_formed(),
{
    owner_never_changes(FeedView::initial(owner), calls);
}

/// A call that is refused leaves the record as it was.
pub proof fn refused_call_changes_nothing(feed: FeedView, call: Call)
    requires
        feed.refuses(call),
    ensures
        feed.after(call) == feed,
{
}

/// Someone who does not own the feed cannot report a value: the call is
/// refused for want of access, and value and timestamp stay.
pub proof fn stranger_cannot_set_value(feed: FeedView, caller: Pubkey, value: i32, timestamp: u32)
    requires
        caller != feed.owner,
    ensures
        feed.owner_only(caller) == Err::<(), OracleErrors>(OracleErrors::AccessDenied),
        feed.after_set_value(caller, value, timestamp) == feed,
{
}

/// While both limits are `0`, every value the owner reports is stored.
pub proof fn unlimited_feed_takes_any_value(feed: FeedView, value: i32, timestamp: u32)
    requires
        feed.min == 0,
        feed.max == 0,
    ensures
        feed.owner_only(feed.owner) == Ok::<(), OracleErrors>(()),
        feed.after_set_value(feed.owner, value, timestamp) == (FeedView {
            value,
            timestamp,
            ..feed
        }),
{
}

/// A report changes value and timestamp together or not at all. It changes
/// them only for the owner and only to a value the feed accepts, so a value
/// stored while limits are set lies within them.
pub proof fn stored_value_is_within_limits(
    feed: FeedView,
    caller: Pubkey,
    value: i32,
    timestamp: u32,
)
    ensures
        feed.after_set_value(caller, value, timestamp) == feed || feed.after_set_value(
            caller,
            value,
            timestamp,
        ) == (FeedView { value, timestamp, ..feed }),
        feed.after_set_value(caller, value, timestamp) != feed ==> caller == feed.owner
            && feed.accepts(value),
        feed.after_set_value(caller, value, timestamp) != feed && (feed.min != 0 || feed.max
            != 0) ==> feed.min <= value <= feed.max,
{
}

/// Subscribing someone twice is the same as subscribing them once.
pub proof fn add_subscription_twice_is_once(feed: FeedView, caller: Pubkey, address: Pubkey)
    ensures
        feed.after_add_subscription(caller, address).after_add_subscription(caller, address)
            == feed.after_add_subscription(caller, address),
{
    let once = feed.after_add_subscription(caller, address);
    if feed.is_owner(caller) && !feed.is_subscriber(address) {
        assert(once.subscribers[once.subscribers.len() - 1] == address);
    }
}

/// The owner subscribing the same key twice to a feed without subscribers
/// leaves exactly that one subscriber, listed once.
pub proof fn first_subscriber_is_listed_once(feed: FeedView, address: Pubkey)
    requires
        feed.subscribers.len() == 0,
    ensures
        feed.after_add_subscription(feed.owner, address).after_add_subscription(
            feed.owner,
            address,
        ).subscribers == seq![address],
        feed.after_add_subscription(feed.owner, address).after_add_subscription(
            feed.owner,
            address,
        ).subscriber_set().len() == 1,
{
    add_subscription_twice_is_once(feed, feed.owner, address);
    let twice = feed.after_add_subscription(feed.owner, address).after_add_subscription(
        feed.owner,
        address,
    );
    listed_once_counts_once(twice);
}

/// Once subscribed by the owner, a key is a subscriber, and the list has no
/// repetition if it had none.
pub proof fn subscribed_is_subscriber(feed: FeedView, address: Pubkey)
    ensures
        feed.after_add_subscription(feed.owner, address).is_subscriber(address),
        feed.well_formed() ==> feed.after_add_subscription(feed.owner, address).well_formed(),
{
    let after = feed.after_add_subscription(feed.owner, address);
    if !feed.is_subscriber(address) {
        assert(after.subscribers[after.subscribers.len() - 1] == address);
    }
}

/// Revoking someone who does not subscribe is no error for the owner and
/// changes nothing, whoever asks.
pub proof fn revoke_absent_changes_nothing(feed: FeedView, caller: Pubkey, address: Pubkey)
    requires
        !feed.is_subscriber(address),
    ensures
        feed.owner_only(feed.owner) == Ok::<(), OracleErrors>(()),
        feed.after_revoke_subscription(caller, address) == feed,
{
    without_absent_is_same(feed.subscribers, address);
}

/// Once revoked by the owner, a key is no subscriber; every other key is one
/// exactly if it was before.
pub proof fn revoked_is_no_subscriber(feed: FeedView, address: Pubkey)
    ensures
        !feed.after_revoke_subscription(feed.owner, address).is_subscriber(address),
        forall|other: Pubkey|
            other != address ==> (feed.after_revoke_subscription(
                feed.owner,
                address,
            ).is_subscriber(other) <==> feed.is_subscriber(other)),
{
    without_keeps_the_others(feed.subscribers, address, address);
    assert forall|other: Pubkey| other != address implies (feed.after_revoke_subscription(
        feed.owner,
        address,
    ).is_subscriber(other) <==> feed.is_subscriber(other)) by {
        without_keeps_the_others(feed.subscribers, address, other);
    }
}

/// Seen as a set, the subscribers gain `address` when the owner subscribes
/// it and lose it when the owner revokes it; asked by anyone else, the set
/// stays.
pub proof fn subscribers_are_a_set(feed: FeedView, caller: Pubkey, address: Pubkey)
    ensures
        feed.after_add_subscription(caller, address).subscriber_set() == if caller == feed.owner {
            feed.subscriber_set().insert(address)
        } else {
            feed.subscriber_set()
        },
        feed.after_revoke_subscription(caller, address).subscriber_set() == if caller
            == feed.owner {
            feed.subscriber_set().remove(address)
        } else {
            feed.subscriber_set()
        },
{
    if caller == feed.owner {
        let added = feed.after_add_subscription(caller, address);
        assert(added.subscriber_set() =~= feed.subscriber_set().insert(address)) by {
            if feed.is_subscriber(address) {
                assert(feed.subscriber_set().contains(address));
            } else {
                feed.subscribers.lemma_push_to_set_commute(address);
            }
        }
        let revoked = feed.after_revoke_subscription(caller, address);
        assert forall|key: Pubkey|
            revoked.subscriber_set().contains(key) <==> feed.subscriber_set().remove(
                address,
            ).contains(key) by {
            without_keeps_the_others(feed.subscribers, address, key);
        }
        assert(revoked.subscriber_set() =~= feed.subscriber_set().remove(address));
    }
}

/// While no subscriber is listed twice, the feed has as many subscribers as
/// its list is long.
pub proof fn listed_once_counts_once(feed: FeedView)
    requires
        feed.well_formed(),
    ensures
        feed.subscriber_set().finite(),
        feed.subscriber_set().len() == feed.subscribers.len(),
{
    feed.subscribers.unique_seq_to_set();
    vstd::seq_lib::seq_to_set_is_finite(feed.subscribers);
}

/// Once the owner has set a license other than `0`, someone who neither owns
/// the feed nor subscribes to it is told to subscribe; once the owner has
/// subscribed them, they read the value and timestamp the feed holds.
pub proof fn license_shuts_out_until_subscribed(feed: FeedView, license: u8, reader: Pubkey)
    requires
        license != 0,
        reader != feed.owner,
        !feed.is_subscriber(reader),
    ensures
        feed.after_set_license(feed.owner, license).read_by(reader) == Err::<
            (i32, u32),
            OracleErrors,
        >(OracleErrors::Subscribe),
        feed.after_set_license(feed.owner, license).after_add_subscription(
            feed.owner,
            reader,
        ).read_by(reader) == Ok::<(i32, u32), OracleErrors>((feed.value, feed.timestamp)),
{
    subscribed_is_subscriber(feed.after_set_license(feed.owner, license), reader);
}

/// The owner reads the feed under any license, and everyone reads it while
/// the license is `0`.
pub proof fn owner_and_open_feed_are_read(feed: FeedView, reader: Pubkey)
    ensures
        feed.read_by(feed.owner) == Ok::<(i32, u32), OracleErrors>((feed.value, feed.timestamp)),
        feed.license == 0 ==> feed.read_by(reader) == Ok::<(i32, u32), OracleErrors>(
            (feed.value, feed.timestamp),
        ),
{
}

/// The auditor may set the limits though it does not own the feed.
pub proof fn auditor_may_set_limit(feed: FeedView, auditor: Pubkey, min: i32, max: i32)
    requires
        feed.auditor == Some(auditor),
    ensures
        feed.owner_or_auditor_only(auditor) == Ok::<(), OracleErrors>(()),
        feed.after_set_limit(auditor, min, max) == (FeedView { min, max, ..feed }),
{
}

/// Someone who neither owns nor audits the feed cannot set the limits: the
/// call is refused for want of access and the record stays.
pub proof fn third_party_cannot_set_limit(feed: FeedView, caller: Pubkey, min: i32, max: i32)
    requires
        caller != feed.owner,
        feed.auditor != Some(caller),
    ensures
        feed.owner_or_auditor_only(caller) == Err::<(), OracleErrors>(OracleErrors::AccessDenied),
        feed.after_set_limit(caller, min, max) == feed,
{
}

/// With the least value above the greatest, the feed takes no value at all.
pub proof fn crossed_limits_take_nothing(feed: FeedView, caller: Pubkey, value: i32, timestamp: u32)
    requires
        feed.min > feed.max,
    ensures
        !feed.accepts(value),
        feed.after_set_value(caller, value, timestamp) == feed,
{
}

} // verus!
