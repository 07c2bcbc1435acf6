//! Messages of the auction contract and the arithmetic that turns lease
//! time into deposit and back.

use crate::host::Addr;
use crate::math::{checked_multiply_ratio, ratio, ratio_ceil};
use crate::utils::{Timedelta, Timestamp};
use vstd::arithmetic::div_mod::{lemma_fundamental_div_mod, lemma_hoist_over_denominator};
use vstd::prelude::*;

verus! {

/// Rate is provided as number of stablecoins per day
pub const RATE_SEC_DENOM: u64 = 86_400;

#[derive(Clone, Debug, PartialEq, Eq)]
pub struct InstantiateMsg {
    /// Collector of funds
    pub collector_addr: String,
    /// Stablecoin denomination
    pub stable_denom: String,
    /// Minimum number of seconds to allow bidding for
    pub min_lease_secs: Timedelta,
    /// Maximum number of seconds to allow bidding for at once
    pub max_lease_secs: Timedelta,
    /// Number of seconds to allow counter-bids
    pub counter_delay_secs: Timedelta,
    /// Number of transition delay seconds after successful counter-bid
    pub transition_delay_secs: Timedelta,
    /// Number of seconds until a new bid can start
    pub bid_delay_secs: Timedelta,
}

#[derive(Clone, Debug, PartialEq, Eq)]
pub enum ExecuteMsg {
    BidName {
        /// Name to bid on
        name: String,
        /// Amount of stablecoin to bid for full the full interval length
        rate: u128,
    },
    FundName {
        /// Name to fund
        name: String,
        /// Current owner (fails if this is not the owner)
        owner: String,
    },
    SetNameRate {
        /// Name to change rate of
        name: String,
        /// Rate to change to
        rate: u128,
    },
    TransferNameOwner {
        /// Name to transfer
        name: String,
        /// Destination to transfer ownership of name to
        to: String,
    },
    SetNameController {
        /// Name to set controller for
        name: String,
        /// New controller (someone who can set values only)
        controller: String,
    },
}

#[derive(Clone, Debug, PartialEq, Eq)]
pub enum QueryMsg {
    Config {  },
    GetNameState {
        /// Name to obtain state for
        name: String,
    },
    GetAllNameStates {
        /// Start after (for pagination)
        start_after: Option<String>,
        /// Number of values to return
        limit: Option<u32>,
    },
}

#[derive(Copy, Clone, Debug, PartialEq, Eq, Structural)]
pub struct MigrateMsg {}

#[derive(Clone, Debug, PartialEq, Eq)]
pub struct ConfigResponse {
    /// Collector of funds
    pub collector_addr: Addr,
    /// Stablecoin denomination
    pub stable_denom: String,
    /// Minimum number of seconds to allow bidding for
    pub min_lease_secs: Timedelta,
    /// Maximum number of seconds to allow bidding for at once
    pub max_lease_secs: Timedelta,
    /// Number of seconds to allow counter-bids
    pub counter_delay_secs: Timedelta,
    /// Number of transition delay seconds after successful counter-bid
    pub transition_delay_secs: Timedelta,
    /// Number of seconds until a new bid can start
    pub bid_delay_secs: Timedelta,
}

#[derive(Clone, Debug, PartialEq, Eq)]
pub struct NameStateResponse {
    /// Owner of the name
    pub name_owner: Option<Addr>,
    /// Owner of the current highest bid
    pub bid_owner: Option<Addr>,
    /// Controller of the name
    pub controller: Option<Addr>,
    /// Amount of stablecoin per RATE_SEC_DENOM charged
    pub rate: u128,
    /// Timestamp in seconds when lease begun
    pub begin_time: Timestamp,
    /// Deposit when lease begun
    pub begin_deposit: u128,
    /// Deposit now
    pub current_deposit: u128,
    /// Counter-delay end timestamp
    pub counter_delay_end: Timestamp,
    /// Transition-delay end timestamp
    pub transition_delay_end: Timestamp,
    /// Bid-delay end timestamp
    pub bid_delay_end: Timestamp,
    /// Expire timestamp
    pub expire_time: Option<Timestamp>,
}

#[derive(Clone, Debug, PartialEq, Eq)]
pub struct NameStateItem {
    pub name: String,
    pub state: NameStateResponse,
}

#[derive(Clone, Debug, PartialEq, Eq)]
pub struct AllNameStatesResponse {
    pub names: Vec<NameStateItem>,
}

/// Deposit that `seconds` of lease cost at `rate`, rounded down:
/// `floor(seconds * rate / RATE_SEC_DENOM)`.
pub open spec fn deposit_floor(seconds: nat, rate: nat) -> nat {
    ratio(rate, seconds, RATE_SEC_DENOM as nat)
}

/// Deposit that `seconds` of lease cost at `rate`, rounded up:
/// `floor((seconds * rate + RATE_SEC_DENOM - 1) / RATE_SEC_DENOM)`.
pub open spec fn deposit_ceil(seconds: nat, rate: nat) -> nat {
    ratio_ceil(rate, seconds, RATE_SEC_DENOM as nat)
}

/// Seconds of lease that `deposit` pays for at a non-zero `rate`:
/// `floor(deposit * RATE_SEC_DENOM / rate)`.
pub open spec fn lease_seconds(deposit: nat, rate: nat) -> nat {
    ratio(deposit, RATE_SEC_DENOM as nat, rate)
}

/// What `seconds_from_deposit` returns: the seconds paid for, where the
/// rate is not zero and the seconds fit a `Timedelta`.
pub open spec fn spec_seconds_from_deposit(deposit: u128, rate: u128) -> Option<Timedelta> {
    if rate > 0 && lease_seconds(deposit as nat, rate as nat) <= u64::MAX {
        Some(Timedelta(lease_seconds(deposit as nat, rate as nat) as u64))
    } else {
        None
    }
}

/// The rounded-up deposit never undercuts the rounded-down one and exceeds
/// it by at most one raw unit.
pub proof fn lemma_deposit_ceil_bounds(seconds: nat, rate: nat)
    ensures
        deposit_floor(seconds, rate) <= deposit_ceil(seconds, rate) <= deposit_floor(seconds, rate)
            + 1,
        (seconds * rate) % (RATE_SEC_DENOM as nat) == 0 ==> deposit_ceil(seconds, rate)
            == deposit_floor(seconds, rate),
        deposit_ceil(seconds, rate) * RATE_SEC_DENOM >= seconds * rate,
        deposit_floor(seconds, rate) * RATE_SEC_DENOM <= seconds * rate,
{
    let d = RATE_SEC_DENOM as int;
    let x = (rate * seconds) as int;
    assert(rate * seconds == seconds * rate) by (nonlinear_arith);
    lemma_fundamental_div_mod(x, d);
    lemma_fundamental_div_mod(x + d - 1, d);
    let q = x / d;
    let m = x % d;
    if m == 0 {
        // x + d - 1 == q * d + (d - 1)
        vstd::arithmetic::div_mod::lemma_fundamental_div_mod_converse(x + d - 1, d, q, d - 1);
    } else {
        // x + d - 1 == (q + 1) * d + (m - 1)
        assert((q + 1) * d + (m - 1) == x + d - 1) by (nonlinear_arith)
            requires
                x == d * q + m,
        ;
        vstd::arithmetic::div_mod::lemma_fundamental_div_mod_converse(
            x + d - 1,
            d,
            q + 1,
            m - 1,
        );
    }
    assert(deposit_ceil(seconds, rate) == (x + d - 1) / d);
    assert(deposit_floor(seconds, rate) == q);
    assert(deposit_ceil(seconds, rate) * d >= x) by (nonlinear_arith)
        requires
            deposit_ceil(seconds, rate) == if m == 0 {
                q
            } else {
                q + 1
            },
            x == d * q + m,
            0 <= m < d,
    ;
    assert(q * d <= x) by (nonlinear_arith)
        requires
            x == d * q + m,
            0 <= m,
    ;
}

/// Return deposit needed for seconds and rate rounded down.
///
/// Rounded down to nearest raw unit (e.g. to 1 uusd NOT 1 whole usd).
/// `None` where the deposit does not fit 128 bits.
pub fn deposit_from_seconds_floor(seconds: Timedelta, rate: u128) -> (r: Option<u128>)
    ensures
        r == (if deposit_floor(seconds.0 as nat, rate as nat) <= u128::MAX {
            Some(deposit_floor(seconds.0 as nat, rate as nat) as u128)
        } else {
            None
        }),
{
    checked_multiply_ratio(rate, seconds.value() as u128, RATE_SEC_DENOM as u128)
}

/// Return deposit needed for seconds and rate rounded up.
///
/// Rounded up to nearest raw unit (e.g. to 1 uusd NOT 1 whole usd).
/// `None` where the deposit does not fit 128 bits.
pub fn deposit_from_seconds_ceil(seconds: Timedelta, rate: u128) -> (r: Option<u128>)
    ensures
        r == (if deposit_ceil(seconds.0 as nat, rate as nat) <= u128::MAX {
            Some(deposit_ceil(seconds.0 as nat, rate as nat) as u128)
        } else {
            None
        }),
{
    let period: u128 = RATE_SEC_DENOM as u128;
    let secs: u128 = seconds.value() as u128;
    let whole: u128 = rate / period;
    let rest: u128 = rate % period;
    assert(secs * rest + period - 1 <= 0xffff_ffff_ffff_ffff * 86_400 + 86_400) by (nonlinear_arith)
        requires
            0 <= secs <= 0xffff_ffff_ffff_ffff,
            0 <= rest < 86_400,
            period == 86_400,
    ;
    let part: u128 = (secs * rest + (period - 1)) / period;
    proof {
        let d = period as int;
        lemma_fundamental_div_mod(rate as int, d);
        assert(rate * secs + d - 1 == (rest * secs + d - 1) + (whole * secs) * d)
            by (nonlinear_arith)
            requires
                rate == d * whole + rest,
        ;
        lemma_hoist_over_denominator(rest * secs + d - 1, whole * secs, period as nat);
        assert(rest * secs == secs * rest) by (nonlinear_arith);
        assert(whole * secs == secs * whole) by (nonlinear_arith);
        assert(deposit_ceil(seconds.0 as nat, rate as nat) == part + secs * whole);
    }
    match secs.checked_mul(whole) {
        Some(high) => high.checked_add(part),
        None => None,
    }
}

/// Return number of seconds corresponding to deposit and rate
///
/// `None` at rate zero, where a deposit is never used up, and where the
/// seconds do not fit a `Timedelta`.
pub fn seconds_from_deposit(deposit: u128, rate: u128) -> (r: Option<Timedelta>)
    ensures
        r == spec_seconds_from_deposit(deposit, rate),
{
    if rate == 0 {
        None
    } else {
        match checked_multiply_ratio(deposit, RATE_SEC_DENOM as u128, rate) {
            Some(seconds) => {
                if seconds <= u64::MAX as u128 {
                    Some(Timedelta::from_seconds(seconds as u64))
                } else {
                    None
                }
            },
            None => None,
        }
    }
}

} // verus!
