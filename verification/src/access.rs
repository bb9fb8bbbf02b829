//! Who may do what to a feed.

use crate::datafeed::{DataFeed, FeedView};
use crate::keys::same_key;
use crate::limits::within_limit;
use anchor_lang::prelude::Pubkey;
use vstd::prelude::*;

verus! {

impl FeedView {
    /// `caller` owns the feed.
    pub open spec fn is_owner(self, caller: Pubkey) -> bool {
        caller == self.owner
    }

    /// `caller` owns the feed or is its auditor.
    pub open spec fn is_owner_or_auditor(self, caller: Pubkey) -> bool {
        caller == self.owner || self.auditor == Some(caller)
    }

    /// `who` is listed among the subscribers.
    pub open spec fn is_subscriber(self, who: Pubkey) -> bool {
        self.subscribers.contains(who)
    }

    /// `caller` may read the feed: the feed is open, or `caller` owns it or
    /// subscribes to it.
    pub open spec fn may_read(self, caller: Pubkey) -> bool {
        self.license == 0 || self.is_owner(caller) || self.is_subscriber(caller)
    }

    /// The feed's limits admit `value`.
    pub open spec fn accepts(self, value: i32) -> bool {
        within_limit(value as int, self.min as int, self.max as int)
    }
}

/// Whether `caller` owns `datafeed`.
pub fn is_owner(datafeed: &DataFeed, caller: &Pubkey) -> (yes: bool)
    ensures
        yes == datafeed@.is_owner(*caller),
{
    same_key(caller, &datafeed.owner)
}

/// Whether `caller` owns `datafeed` or is its auditor.
pub fn is_owner_or_auditor(datafeed: &DataFeed, caller: &Pubkey) -> (yes: bool)
    ensures
        yes == datafeed@.is_owner_or_auditor(*caller),
{
    if same_key(caller, &datafeed.owner) {
        return true;
    }
    match &datafeed.auditor {
        Some(auditor) => same_key(caller, auditor),
        None => false,
    }
}

/// Whether `who` is listed among the subscribers of `datafeed`.
pub fn is_subscriber(datafeed: &DataFeed, who: &Pubkey) -> (yes: bool)
    ensures
        yes == datafeed@.is_subscriber(*who),
{
    let mut i: usize = 0;
    while i < datafeed.subscribers.len()
        invariant
            i <= datafeed.subscribers.len(),
            forall|j: int| 0 <= j < i ==> datafeed.subscribers@[j] != *who,
        decreases datafeed.subscribers.len() - i,
    {
        if same_key(&datafeed.subscribers[i], who) {
            return true;
        }
        i += 1;
    }
    false
}

/// Whether `caller` may read `datafeed`.
pub fn may_read(datafeed: &DataFeed, caller: &Pubkey) -> (yes: bool)
    ensures
        yes == datafeed@.may_read(*caller),
{
    datafeed.license == 0 || is_owner(datafeed, caller) || is_subscriber(datafeed, caller)
}

} // verus!
