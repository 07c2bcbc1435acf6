use cosmwasm_std::{OverflowError, OverflowOperation};
use terranames::contracts::auction::errors::ContractError as AuctionError;
use terranames::contracts::resolver::errors::ContractError as ResolverError;
use terranames::contracts::root_collector::errors::ContractError as CollectorError;
use terranames::errors::StdError;
use terranames::host::{coins, get_sent_funds, mock_info, Coin, Env, EnvBuilder, MessageInfo};
use terranames::utils::{Timedelta, Timestamp};

#[test]
fn timestamp_accessors() {
    assert_eq!(Timestamp::from_seconds(42).value(), 42);
    assert_eq!(Timestamp::zero().value(), 0);
    assert!(Timestamp::zero().is_zero());
    assert!(!Timestamp::from_seconds(1).is_zero());
    assert_eq!(Timestamp::default(), Timestamp::zero());
    assert_eq!(Timedelta::from_seconds(42).value(), 42);
    assert_eq!(Timedelta::zero().value(), 0);
    assert!(Timedelta::zero().is_zero());
    assert!(!Timedelta::from_seconds(1).is_zero());
    assert_eq!(Timedelta::default(), Timedelta::zero());
}

#[test]
fn timestamp_checked_add() {
    let sum = Timestamp::from_seconds(1234).checked_add(Timedelta::from_seconds(604_800));
    assert_eq!(sum.unwrap(), Timestamp::from_seconds(606_034));
    let sum = Timestamp::from_seconds(u64::MAX - 1).checked_add(Timedelta::from_seconds(1));
    assert_eq!(sum.unwrap(), Timestamp::from_seconds(u64::MAX));
    let sum = Timestamp::from_seconds(u64::MAX).checked_add(Timedelta::from_seconds(1));
    assert!(sum.is_err());
}

#[test]
fn timestamp_checked_sub() {
    let spent = Timestamp::from_seconds(2000).checked_sub(Timestamp::from_seconds(1234));
    assert_eq!(spent.unwrap(), Timedelta::from_seconds(766));
    let spent = Timestamp::from_seconds(1234).checked_sub(Timestamp::from_seconds(1234));
    assert_eq!(spent.unwrap(), Timedelta::zero());
    let spent = Timestamp::from_seconds(1233).checked_sub(Timestamp::from_seconds(1234));
    assert!(spent.is_err());
}

#[test]
fn time_sums() {
    assert_eq!(
        Timestamp::from_seconds(1234) + Timedelta::from_seconds(23_547_972),
        Timestamp::from_seconds(23_549_206)
    );
    assert_eq!(
        Timedelta::from_seconds(604_800) + Timedelta::from_seconds(15_778_476),
        Timedelta::from_seconds(16_383_276)
    );
}

#[test]
fn time_conversions() {
    assert_eq!(u64::from(Timestamp::from_seconds(77)), 77u64);
    assert_eq!(u64::from(Timedelta::from_seconds(78)), 78u64);
    assert_eq!(u128::from(Timedelta::from_seconds(u64::MAX)), u64::MAX as u128);
}

#[test]
fn time_order() {
    assert!(Timedelta::from_seconds(15_778_476) <= Timedelta::from_seconds(157_784_760));
    assert!(Timestamp::from_seconds(10_100_000) >= Timestamp::from_seconds(10_100_000));
    assert!(Timestamp::from_seconds(3) < Timestamp::from_seconds(4));
}

#[test]
fn env_at_time() {
    let env = Env { time: Timestamp::from_seconds(1_571_797_419) };
    assert_eq!(env.at_time(123_456).time, Timestamp::from_seconds(123_456));
}

#[test]
fn sent_funds_takes_first_of_denom() {
    let info = MessageInfo {
        sender: "sender".to_string(),
        funds: vec![
            Coin { denom: "uNOT".to_string(), amount: 5 },
            Coin { denom: "uabc".to_string(), amount: 7 },
            Coin { denom: "uabc".to_string(), amount: 9 },
        ],
    };
    assert_eq!(get_sent_funds(&info, &"uabc".to_string()), 7);
    assert_eq!(get_sent_funds(&info, &"uNOT".to_string()), 5);
    assert_eq!(get_sent_funds(&info, &"uluna".to_string()), 0);
    assert_eq!(get_sent_funds(&mock_info("sender", vec![]), &"uabc".to_string()), 0);
}

#[test]
fn info_and_coins() {
    let info = mock_info("bidder", coins(30_000, "uabc"));
    assert_eq!(info.sender, "bidder");
    assert_eq!(info.funds, vec![Coin { denom: "uabc".to_string(), amount: 30_000 }]);
}

#[test]
fn errors_from_below() {
    assert_eq!(
        AuctionError::from(StdError::NotFound),
        AuctionError::Std { source: StdError::NotFound }
    );
    assert_eq!(
        CollectorError::from(StdError::Overflow),
        CollectorError::Std { source: StdError::Overflow }
    );
    assert_eq!(
        ResolverError::from(StdError::InvalidUtf8),
        ResolverError::Std { source: StdError::InvalidUtf8 }
    );
    let overflow = OverflowError::new(OverflowOperation::Add, 1, 2);
    assert_eq!(AuctionError::from(overflow), AuctionError::Overflow);
    let overflow = OverflowError::new(OverflowOperation::Sub, 1, 2);
    assert_eq!(CollectorError::from(overflow), CollectorError::Overflow);
}

#[test]
fn overflow_of_time_becomes_contract_error() {
    let failed = Timestamp::from_seconds(u64::MAX).checked_add(Timedelta::from_seconds(1));
    assert_eq!(failed.map_err(AuctionError::from), Err(AuctionError::Overflow));
    let failed = Timestamp::from_seconds(0).checked_sub(Timestamp::from_seconds(1));
    assert_eq!(failed.map_err(CollectorError::from), Err(CollectorError::Overflow));
}

#[test]
fn error_messages() {
    assert_eq!(AuctionError::Unauthorized.message(), "Unauthorized");
    assert_eq!(AuctionError::Unfunded.message(), "Unfunded");
    assert_eq!(AuctionError::InvalidConfig.message(), "Invalid Config");
    assert_eq!(AuctionError::ClosedForBids.message(), "Closed For Bids");
    assert_eq!(AuctionError::BidRateTooLow { rate: 5 }.message(), "Bid rate too low");
    assert_eq!(AuctionError::BidDepositTooLow { deposit: 5 }.message(), "Bid deposit too low");
    assert_eq!(AuctionError::BidInvalidInterval.message(), "Bid has invalid interval");
    assert_eq!(AuctionError::UnexpectedState.message(), "Unexpected state");
    assert_eq!(AuctionError::Overflow.message(), "Overflow");
    assert_eq!(CollectorError::InsufficientTokens.message(), "Insufficient tokens");
    assert_eq!(CollectorError::InsufficientFunds.message(), "Insufficient funds");
    assert_eq!(CollectorError::Unauthorized.message(), "Unauthorized");
    assert_eq!(ResolverError::NameExpired.message(), "NameExpired");
    assert_eq!(ResolverError::Unauthorized.message(), "Unauthorized");
    assert_eq!(
        ResolverError::Std { source: StdError::NotFound }.message(),
        "StdError: not found"
    );
}
