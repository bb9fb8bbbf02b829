//! What each operation is called with: the record it works on and the
//! authenticated identity of its caller.

use crate::datafeed::DataFeed;
use anchor_lang::prelude::Pubkey;
use vstd::prelude::*;

verus! {

/// The caller who creates a feed.
pub struct InitializeOracle {
    /// Who creates the feed, and so becomes its owner.
    pub signer: Pubkey,
}

/// A request to read a feed.
pub struct GetDataFeed {
    /// The feed to read.
    pub datafeed: DataFeed,
    /// Who asks.
    pub signer: Pubkey,
}

/// A request to report a new value.
pub struct SetValue {
    /// The feed the value is reported to.
    pub datafeed: DataFeed,
    /// Who asks.
    pub signer: Pubkey,
}

/// A request to change the license of a feed.
pub struct SetLicense {
    /// The feed whose license is set.
    pub datafeed: DataFeed,
    /// Who asks.
    pub signer: Pubkey,
}

/// A request to let someone read a licensed feed.
pub struct AddSubscription {
    /// The feed to subscribe to.
    pub datafeed: DataFeed,
    /// Who asks.
    pub signer: Pubkey,
}

/// A request to withdraw someone's right to read a licensed feed.
pub struct RevokeSubscription {
    /// The feed to revoke the subscription to.
    pub datafeed: DataFeed,
    /// Who asks.
    pub signer: Pubkey,
}

/// A request to name the auditor of a feed.
pub struct SetAuditor {
    /// The feed whose auditor is named.
    pub datafeed: DataFeed,
    /// Who asks.
    pub signer: Pubkey,
}

/// A request to bound the values a feed accepts.
pub struct SetLimit {
    /// The feed whose limits are set.
    pub datafeed: DataFeed,
    /// Who asks.
    pub signer: Pubkey,
}

} // verus!
