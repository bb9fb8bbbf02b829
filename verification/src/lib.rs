//! A single-record data feed: the owner writes it, an auditor may bound the
//! values it accepts, and a license decides who may read it.
//!
//! Every operation receives the identity of its caller already authenticated
//! and works on one record. What it returns and how it changes the record is
//! stated over the record's view, [`FeedView`].

pub mod access;
pub mod contexts;
pub mod datafeed;
pub mod errors;
pub mod keys;
pub mod laws;
pub mod limits;
pub mod oracle;

pub use crate::access::{is_owner, is_owner_or_auditor, is_subscriber, may_read};
pub use crate::contexts::{
    AddSubscription, GetDataFeed, InitializeOracle, RevokeSubscription, SetAuditor, SetLicense,
    SetLimit, SetValue,
};
pub use crate::datafeed::{DataFeed, FeedView};
pub use crate::errors::OracleErrors;
pub use crate::limits::check_limit;
pub use crate::oracle::{
    add_subscription, get_datafeed, initialize, revoke_subscription, set_auditor, set_license,
    set_limit, set_value,
};
