//! The operations on a feed. Each one checks its caller first and refuses
//! without touching the record; only then does it read or change it.

use crate::access::{is_owner, is_owner_or_auditor, is_subscriber, may_read};
use crate::contexts::{
    AddSubscription, GetDataFeed, InitializeOracle, RevokeSubscription, SetAuditor, SetLicense,
    SetLimit, SetValue,
};
use crate::datafeed::{DataFeed, FeedView};
use crate::errors::OracleErrors;
use crate::keys::same_key;
use crate::laws::without_keeps_no_duplicates;
use crate::limits::check_limit;
use anchor_lang::prelude::Pubkey;
use vstd::prelude::*;

verus! {

impl FeedView {
    /// What an operation reserved to the owner answers to `caller`.
    pub open spec fn owner_only(self, caller: Pubkey) -> Result<(), OracleErrors> {
        if self.is_owner(caller) {
            Ok(())
        } else {
            Err(OracleErrors::AccessDenied)
        }
    }

    /// What an operation open to the owner and the auditor answers to
    /// `caller`.
    pub open spec fn owner_or_auditor_only(self, caller: Pubkey) -> Result<(), OracleErrors> {
        if self.is_owner_or_auditor(caller) {
            Ok(())
        } else {
            Err(OracleErrors::AccessDenied)
        }
    }

    /// What `caller` gets when reading the feed: the latest value and its
    /// timestamp, or a refusal if the feed is licensed to others.
    pub open spec fn read_by(self, caller: Pubkey) -> Result<(i32, u32), OracleErrors> {
        if self.may_read(caller) {
            Ok((self.value, self.timestamp))
        } else {
            Err(OracleErrors::Subscribe)
        }
    }

    /// The record after `caller` has reported `value` at `timestamp`: the
    /// pair is stored if `caller` owns the feed and the limits admit `value`,
    /// and the record stays as it is otherwise.
    pub open spec fn after_set_value(self, caller: Pubkey, value: i32, timestamp: u32) -> FeedView {
        if self.is_owner(caller) && self.accepts(value) {
            FeedView { value, timestamp, ..self }
        } else {
            self
        }
    }

    /// The record after `caller` has asked for the license `license`.
    pub open spec fn after_set_license(self, caller: Pubkey, license: u8) -> FeedView {
        if self.is_owner(caller) {
            FeedView { license, ..self }
        } else {
            self
        }
    }

    /// The record after `caller` has asked to subscribe `address`: the owner
    /// gets `address` listed, once, behind those already there.
    pub open spec fn after_add_subscription(self, caller: Pubkey, address: Pubkey) -> FeedView {
        if self.is_owner(caller) && !self.is_subscriber(address) {
            FeedView { subscribers: self.subscribers.push(address), ..self }
        } else {
            self
        }
    }

    /// The record after `caller` has asked to revoke `address`: the owner gets
    /// every listing of `address` removed, the others staying in their order.
    pub open spec fn after_revoke_subscription(self, caller: Pubkey, address: Pubkey) -> FeedView {
        if self.is_owner(caller) {
            FeedView { subscribers: without(self.subscribers, address), ..self }
        } else {
            self
        }
    }

    /// The record after `caller` has asked to make `address` the auditor.
    pub open spec fn after_set_auditor(self, caller: Pubkey, address: Pubkey) -> FeedView {
        if self.is_owner(caller) {
            FeedView { auditor: Some(address), ..self }
        } else {
            self
        }
    }

    /// The record after `caller` has asked for the limits `min` and `max`.
    pub open spec fn after_set_limit(self, caller: Pubkey, min: i32, max: i32) -> FeedView {
        if self.is_owner_or_auditor(caller) {
            FeedView { min, max, ..self }
        } else {
            self
        }
    }
}

/// `keys` with every occurrence of `address` taken out.
pub open spec fn without(keys: Seq<Pubkey>, address: Pubkey) -> Seq<Pubkey> {
    keys.filter(|key: Pubkey| key != address)
}

/// Creates a feed: the caller becomes its owner, and everything else starts
/// empty. `feedid` tells the caller's feeds apart where they are stored; the
/// record itself does not hold it.
pub fn initialize(ctx: &InitializeOracle, _feedid: u16) -> (result: Result<DataFeed, OracleErrors>)
    ensures
        result matches Ok(datafeed) && datafeed@ == FeedView::initial(ctx.signer),
{
    Ok(
        DataFeed {
            value: 0,
            timestamp: 0,
            license: 0,
            owner: ctx.signer,
            auditor: None,
            min: 0,
            max: 0,
            subscribers: Vec::new(),
        },
    )
}

/// Reads the latest value and its timestamp. Anyone may read an open feed; a
/// licensed one only its owner and its subscribers.
pub fn get_datafeed(ctx: &GetDataFeed) -> (result: Result<(i32, u32), OracleErrors>)
    ensures
        result == ctx.datafeed@.read_by(ctx.signer),
{
    if !may_read(&ctx.datafeed, &ctx.signer) {
        return Err(OracleErrors::Subscribe);
    }
    Ok((ctx.datafeed.value, ctx.datafeed.timestamp))
}

/// Reports a new value. Only the owner may. A value outside the limits is
/// dropped without a word: the call still succeeds, and the record keeps the
/// value and timestamp it had. `_symbol` names what was measured; the
/// record does not keep it.
pub fn set_value(ctx: &mut SetValue, value: i32, timestamp: u32, _symbol: String) -> (result: Result<
    (),
    OracleErrors,
>)
    ensures
        result == old(ctx).datafeed@.owner_only(old(ctx).signer),
        final(ctx).datafeed@ == old(ctx).datafeed@.after_set_value(
            old(ctx).signer,
            value,
            timestamp,
        ),
        final(ctx).signer == old(ctx).signer,
        final(ctx).datafeed@.owner == old(ctx).datafeed@.owner,
        old(ctx).datafeed@.well_formed() ==> final(ctx).datafeed@.well_formed(),
{
    if !is_owner(&ctx.datafeed, &ctx.signer) {
        return Err(OracleErrors::AccessDenied);
    }
    if check_limit(value, ctx.datafeed.min, ctx.datafeed.max) {
        ctx.datafeed.value = value;
        ctx.datafeed.timestamp = timestamp;
    }
    Ok(())
}

/// Sets the license: `0` opens the feed to every reader, any other number
/// restricts it to the owner and the subscribers. Only the owner may.
pub fn set_license(ctx: &mut SetLicense, license: u8) -> (result: Result<(), OracleErrors>)
    ensures
        result == old(ctx).datafeed@.owner_only(old(ctx).signer),
        final(ctx).datafeed@ == old(ctx).datafeed@.after_set_license(old(ctx).signer, license),
        final(ctx).signer == old(ctx).signer,
        final(ctx).datafeed@.owner == old(ctx).datafeed@.owner,
        old(ctx).datafeed@.well_formed() ==> final(ctx).datafeed@.well_formed(),
{
    if !is_owner(&ctx.datafeed, &ctx.signer) {
        return Err(OracleErrors::AccessDenied);
    }
    ctx.datafeed.license = license;
    Ok(())
}

/// Lets `address` read the feed while it is licensed. Only the owner may.
/// Subscribing someone who already subscribes changes nothing.
pub fn add_subscription(ctx: &mut AddSubscription, address: Pubkey) -> (result: Result<
    (),
    OracleErrors,
>)
    ensures
        result == old(ctx).datafeed@.owner_only(old(ctx).signer),
        final(ctx).datafeed@ == old(ctx).datafeed@.after_add_subscription(
            old(ctx).signer,
            address,
        ),
        final(ctx).signer == old(ctx).signer,
        final(ctx).datafeed@.owner == old(ctx).datafeed@.owner,
        old(ctx).datafeed@.well_formed() ==> final(ctx).datafeed@.well_formed(),
{
    if !is_owner(&ctx.datafeed, &ctx.signer) {
        return Err(OracleErrors::AccessDenied);
    }
    if !is_subscriber(&ctx.datafeed, &address) {
        ctx.datafeed.subscribers.push(address);
    }
    Ok(())
}

/// Withdraws the right of `address` to read the feed while it is licensed.
/// Only the owner may. Revoking someone who does not subscribe changes
/// nothing and is no error.
pub fn revoke_subscription(ctx: &mut RevokeSubscription, address: Pubkey) -> (result: Result<
    (),
    OracleErrors,
>)
    ensures
        result == old(ctx).datafeed@.owner_only(old(ctx).signer),
        final(ctx).datafeed@ == old(ctx).datafeed@.after_revoke_subscription(
            old(ctx).signer,
            address,
        ),
        final(ctx).signer == old(ctx).signer,
        final(ctx).datafeed@.owner == old(ctx).datafeed@.owner,
        old(ctx).datafeed@.well_formed() ==> final(ctx).datafeed@.well_formed(),
{
    if !is_owner(&ctx.datafeed, &ctx.signer) {
        return Err(OracleErrors::AccessDenied);
    }
    let mut kept: Vec<Pubkey> = Vec::new();
    let mut i: usize = 0;
    while i < ctx.datafeed.subscribers.len()
        invariant
            i <= ctx.datafeed.subscribers.len(),
            kept@ == without(ctx.datafeed.subscribers@.take(i as int), address),
            *ctx == *old(ctx),
        decreases ctx.datafeed.subscribers.len() - i,
    {
        let key = ctx.datafeed.subscribers[i];
        proof {
            let seen = ctx.datafeed.subscribers@.take(i + 1);
            assert(seen.drop_last() == ctx.datafeed.subscribers@.take(i as int));
            reveal(Seq::filter);
        }
        if !same_key(&key, &address) {
            kept.push(key);
        }
        i += 1;
    }
    proof {
        assert(ctx.datafeed.subscribers@.take(i as int) == ctx.datafeed.subscribers@);
        if ctx.datafeed@.well_formed() {
            without_keeps_no_duplicates(ctx.datafeed.subscribers@, address);
        }
    }
    ctx.datafeed.subscribers = kept;
    Ok(())
}

/// Names `address` the auditor, in place of any auditor named before. Only
/// the owner may.
pub fn set_auditor(ctx: &mut SetAuditor, address: Pubkey) -> (result: Result<(), OracleErrors>)
    ensures
        result == old(ctx).datafeed@.owner_only(old(ctx).signer),
        final(ctx).datafeed@ == old(ctx).datafeed@.after_set_auditor(old(ctx).signer, address),
        final(ctx).signer == old(ctx).signer,
        final(ctx).datafeed@.owner == old(ctx).datafeed@.owner,
        old(ctx).datafeed@.well_formed() ==> final(ctx).datafeed@.well_formed(),
{
    if !is_owner(&ctx.datafeed, &ctx.signer) {
        return Err(OracleErrors::AccessDenied);
    }
    ctx.datafeed.auditor = Some(address);
    Ok(())
}

/// Sets the least and the greatest value the feed accepts; `(0, 0)` lifts the
/// limits. The owner and the auditor may. The two numbers are taken as they
/// come: with `min` above `max` the feed accepts nothing.
pub fn set_limit(ctx: &mut SetLimit, min: i32, max: i32) -> (result: Result<(), OracleErrors>)
    ensures
        result == old(ctx).datafeed@.owner_or_auditor_only(old(ctx).signer),
        final(ctx).datafeed@ == old(ctx).datafeed@.after_set_limit(old(ctx).signer, min, max),
        final(ctx).signer == old(ctx).signer,
        final(ctx).datafeed@.owner == old(ctx).datafeed@.owner,
        old(ctx).datafeed@.well_formed() ==> final(ctx).datafeed@.well_formed(),
{
    if !is_owner_or_auditor(&ctx.datafeed, &ctx.signer) {
        return Err(OracleErrors::AccessDenied);
    }
    ctx.datafeed.min = min;
    ctx.datafeed.max = max;
    Ok(())
}

} // verus!

