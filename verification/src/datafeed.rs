//! The record of a feed and its view.

use anchor_lang::prelude::Pubkey;
use vstd::prelude::*;

verus! {

/// One feed: its latest value, who owns it and who may read it.
#[derive(Debug)]
pub struct DataFeed {
    /// The latest reported measurement.
    pub value: i32,
    /// When `value` was reported, in seconds since the epoch, as the reporter
    /// gave it.
    pub timestamp: u32,
    /// `0` lets anyone read the feed; any other number restricts reading to
    /// the owner and the subscribers.
    pub license: u8,
    /// Who created the feed. No operation changes it.
    pub owner: Pubkey,
    /// Who, besides the owner, may set the limits; `None` until one is named.
    pub auditor: Option<Pubkey>,
    /// The least value the feed accepts.
    pub min: i32,
    /// The greatest value the feed accepts. With `min` and `max` both `0` the
    /// feed accepts every value.
    pub max: i32,
    /// Who may read the feed while it is licensed.
    pub subscribers: Vec<Pubkey>,
}

/// What a [`DataFeed`] holds, field for field, with the subscribers as a
/// sequence. The operations are stated over it.
pub struct FeedView {
    pub value: i32,
    pub timestamp: u32,
    pub license: u8,
    pub owner: Pubkey,
    pub auditor: Option<Pubkey>,
    pub min: i32,
    pub max: i32,
    pub subscribers: Seq<Pubkey>,
}

impl View for DataFeed {
    type V = FeedView;

    open spec fn view(&self) -> FeedView {
        FeedView {
            value: self.value,
            timestamp: self.timestamp,
            license: self.license,
            owner: self.owner,
            auditor: self.auditor,
            min: self.min,
            max: self.max,
            subscribers: self.subscribers@,
        }
    }
}

impl FeedView {
    /// The record of a feed that `owner` has just created: no value yet, open
    /// to every reader, no auditor, no limits, no subscribers.
    pub open spec fn initial(owner: Pubkey) -> FeedView {
        FeedView {
            value: 0,
            timestamp: 0,
            license: 0,
            owner,
            auditor: None,
            min: 0,
            max: 0,
            subscribers: Seq::empty(),
        }
    }

    /// No subscriber is listed twice.
    pub open spec fn well_formed(self) -> bool {
        self.subscribers.no_duplicates()
    }

    /// Who subscribes to the feed, in no order.
    pub open spec fn subscriber_set(self) -> Set<Pubkey> {
        self.subscribers.to_set()
    }
}

} // verus!
