use anchor_lang::prelude::Pubkey;
use oracle::{
    check_limit, initialize, is_owner, is_owner_or_auditor, is_subscriber, may_read, DataFeed,
    InitializeOracle, OracleErrors,
};

fn key(tag: u8) -> Pubkey {
    Pubkey::new_from_array([tag; 32])
}

fn feed_of(owner: Pubkey) -> DataFeed {
    initialize(&InitializeOracle { signer: owner }, 7).unwrap()
}

#[test]
fn check_limit_without_limits_accepts_everything() {
    for value in [i32::MIN, -1, 0, 1, i32::MAX] {
        assert!(check_limit(value, 0, 0));
    }
}

#[test]
fn check_limit_is_inclusive_at_both_ends() {
    assert!(check_limit(10, 10, 20));
    assert!(check_limit(15, 10, 20));
    assert!(check_limit(20, 10, 20));
    assert!(!check_limit(9, 10, 20));
    assert!(!check_limit(21, 10, 20));
    assert!(!check_limit(25, 10, 20));
}

#[test]
fn check_limit_with_one_bound_at_zero_is_a_real_range() {
    assert!(check_limit(0, 0, 5));
    assert!(check_limit(5, 0, 5));
    assert!(!check_limit(-1, 0, 5));
    assert!(!check_limit(6, 0, 5));
    assert!(check_limit(-5, -5, 0));
    assert!(check_limit(0, -5, 0));
    assert!(!check_limit(1, -5, 0));
}

#[test]
fn check_limit_with_crossed_bounds_accepts_nothing() {
    for value in [i32::MIN, -1, 0, 10, 15, 20, i32::MAX] {
        assert!(!check_limit(value, 20, 10));
    }
}

#[test]
fn check_limit_with_equal_bounds_accepts_that_value_only() {
    assert!(check_limit(7, 7, 7));
    assert!(!check_limit(6, 7, 7));
    assert!(!check_limit(8, 7, 7));
}

#[test]
fn check_limit_at_the_ends_of_the_integers() {
    assert!(check_limit(i32::MIN, i32::MIN, i32::MAX));
    assert!(check_limit(i32::MAX, i32::MIN, i32::MAX));
    assert!(!check_limit(i32::MAX, i32::MIN, -1));
}

#[test]
fn is_owner_knows_the_owner_only() {
    let feed = feed_of(key(1));
    assert!(is_owner(&feed, &key(1)));
    assert!(!is_owner(&feed, &key(2)));
    assert!(!is_owner(&feed, &Pubkey::default()));
}

#[test]
fn is_owner_or_auditor_knows_both() {
    let mut feed = feed_of(key(1));
    assert!(is_owner_or_auditor(&feed, &key(1)));
    assert!(!is_owner_or_auditor(&feed, &key(2)));
    assert!(!is_owner_or_auditor(&feed, &Pubkey::default()));
    feed.auditor = Some(key(2));
    assert!(is_owner_or_auditor(&feed, &key(1)));
    assert!(is_owner_or_auditor(&feed, &key(2)));
    assert!(!is_owner_or_auditor(&feed, &key(3)));
}

#[test]
fn is_subscriber_finds_a_key_wherever_it_is_listed() {
    let mut feed = feed_of(key(1));
    assert!(!is_subscriber(&feed, &key(1)));
    feed.subscribers = vec![key(2), key(3), key(4)];
    assert!(is_subscriber(&feed, &key(2)));
    assert!(is_subscriber(&feed, &key(3)));
    assert!(is_subscriber(&feed, &key(4)));
    assert!(!is_subscriber(&feed, &key(5)));
    assert!(!is_subscriber(&feed, &key(1)));
}

#[test]
fn may_read_follows_license_owner_and_subscribers() {
    let mut feed = feed_of(key(1));
    assert!(may_read(&feed, &key(9)));
    feed.license = 1;
    assert!(!may_read(&feed, &key(9)));
    assert!(may_read(&feed, &key(1)));
    feed.subscribers = vec![key(9)];
    assert!(may_read(&feed, &key(9)));
    assert!(!may_read(&feed, &key(8)));
    feed.license = 0;
    assert!(may_read(&feed, &key(8)));
}

#[test]
fn each_refusal_has_its_words() {
    assert_eq!(OracleErrors::AccessDenied.message(), "Access denied!");
    assert_eq!(
        OracleErrors::Subscribe.message(),
        "Subscribe to this feed at https://fact.finance"
    );
    assert_ne!(OracleErrors::AccessDenied, OracleErrors::Subscribe);
}
