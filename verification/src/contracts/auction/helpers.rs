//! Builders around the auction: a bid put together step by step, and
//! expectations on the state of a name checked in one go.

use crate::contracts::auction::contract::{
    execute_bid, result_view, spec_execute_bid, Response,
};
use crate::contracts::auction::errors::ContractError;
use crate::contracts::auction::state::{
    option_addr_view, read_option_name_state, lookup, Config, NameState,
};
use crate::host::{coins, mock_info, Addr, Env};
use crate::terra::TaxQuerier;
use crate::utils::Timestamp;
use vstd::prelude::*;
use vstd::string::StringSliceAdditionalSpecFns;

verus! {

/// Builder for creating a single bid
#[derive(Copy, Clone, Debug, PartialEq, Eq)]
pub struct Bid<'a> {
    pub name: &'a str,
    pub bidder: &'a str,
    pub timestamp: u64,
    pub rate: u128,
    pub deposit: u128,
}

impl<'a> Bid<'a> {
    /// A bid of `bidder` on `name` at `timestamp`, at rate zero and with no
    /// deposit.
    pub fn on(name: &'a str, bidder: &'a str, timestamp: u64) -> (r: Bid<'a>)
        ensures
            r == (Bid { name, bidder, timestamp, rate: 0, deposit: 0 }),
    {
        Bid { name, bidder, timestamp, rate: 0, deposit: 0 }
    }

    /// The bid at `rate`.
    pub fn rate(self, rate: u128) -> (r: Bid<'a>)
        ensures
            r == (Bid { rate, ..self }),
    {
        Bid { rate, ..self }
    }

    /// The bid with `deposit` attached.
    pub fn deposit(self, deposit: u128) -> (r: Bid<'a>)
        ensures
            r == (Bid { deposit, ..self }),
    {
        Bid { deposit, ..self }
    }

    /// Make the bid on the record `name_state` of its name, with the
    /// deposit attached in the stablecoin of the auction.
    pub fn execute(self, config: &Config, querier: &TaxQuerier, name_state: Option<NameState>) -> (r:
        Result<Response, ContractError>)
        ensures
            exists|sender: Addr|
                sender@ == self.bidder@ && result_view(r) == #[trigger] spec_execute_bid(
                    config,
                    querier,
                    name_state,
                    Timestamp(self.timestamp),
                    sender,
                    self.deposit,
                    self.rate,
                ),
    {
        let info = mock_info(self.bidder, coins(self.deposit, config.stable_denom.as_str()));
        let env = Env { time: Timestamp::from_seconds(self.timestamp) };
        reveal_with_fuel(crate::host::sent_funds, 2);
        execute_bid(config, querier, name_state, env, &info, self.rate)
    }
}

/// The text as a sequence of characters, where there is one.
pub open spec fn option_str_view(text: Option<&str>) -> Option<Seq<char>> {
    match text {
        Some(t) => Some(t@),
        None => None,
    }
}

/// Whether an optional address is the text given, or both are missing.
pub fn option_addr_is(addr: &Option<Addr>, text: Option<&str>) -> (r: bool)
    ensures
        r == (option_addr_view(*addr) == option_str_view(text)),
{
    match addr {
        Some(a) => match text {
            Some(t) => *a == t.to_owned(),
            None => false,
        },
        None => match text {
            Some(_) => false,
            None => true,
        },
    }
}

/// Helper for asserting the state of a name
#[must_use]
#[derive(Copy, Clone, Debug, PartialEq, Eq)]
pub struct NameStateAsserter<'a> {
    pub name: &'a str,
    pub owner: Option<&'a str>,
    pub controller: Option<Option<&'a str>>,
    pub rate: Option<u128>,
    pub begin_time: Option<u64>,
    pub begin_deposit: Option<u128>,
    pub previous_owner: Option<Option<&'a str>>,
    pub counter_delay_end: Option<u64>,
    pub transition_delay_end: Option<u64>,
    pub bid_delay_end: Option<u64>,
    pub expire_time: Option<Option<u64>>,
}

impl<'a> NameStateAsserter<'a> {
    /// Create NameStateAsserter for asserting state of name
    pub fn new(name: &'a str) -> (r: Self)
        ensures
            r == (NameStateAsserter {
                name,
                owner: None,
                controller: None,
                rate: None,
                begin_time: None,
                begin_deposit: None,
                previous_owner: None,
                counter_delay_end: None,
                transition_delay_end: None,
                bid_delay_end: None,
                expire_time: None,
            }),
    {
        NameStateAsserter {
            name,
            owner: None,
            controller: None,
            rate: None,
            begin_time: None,
            begin_deposit: None,
            previous_owner: None,
            counter_delay_end: None,
            transition_delay_end: None,
            bid_delay_end: None,
            expire_time: None,
        }
    }

    /// Set owner to assert
    pub fn owner(self, owner: &'a str) -> (r: Self)
        ensures
            r == (NameStateAsserter { owner: Some(owner), ..self }),
    {
        NameStateAsserter { owner: Some(owner), ..self }
    }

    /// Set controller to assert
    pub fn controller(self, controller: Option<&'a str>) -> (r: Self)
        ensures
            r == (NameStateAsserter { controller: Some(controller), ..self }),
    {
        NameStateAsserter { controller: Some(controller), ..self }
    }

    /// Set rate to assert
    pub fn rate(self, rate: u128) -> (r: Self)
        ensures
            r == (NameStateAsserter { rate: Some(rate), ..self }),
    {
        NameStateAsserter { rate: Some(rate), ..self }
    }

    /// Set begin time to assert
    pub fn begin_time(self, begin_time: u64) -> (r: Self)
        ensures
            r == (NameStateAsserter { begin_time: Some(begin_time), ..self }),
    {
        NameStateAsserter { begin_time: Some(begin_time), ..self }
    }

    /// Set begin deposit to assert
    pub fn begin_deposit(self, begin_deposit: u128) -> (r: Self)
        ensures
            r == (NameStateAsserter { begin_deposit: Some(begin_deposit), ..self }),
    {
        NameStateAsserter { begin_deposit: Some(begin_deposit), ..self }
    }

    /// Set previous owner to assert
    pub fn previous_owner(self, previous_owner: Option<&'a str>) -> (r: Self)
        ensures
            r == (NameStateAsserter { previous_owner: Some(previous_owner), ..self }),
    {
        NameStateAsserter { previous_owner: Some(previous_owner), ..self }
    }

    /// Set counter delay end to assert
    pub fn counter_delay_end(self, counter_delay_end: u64) -> (r: Self)
        ensures
            r == (NameStateAsserter { counter_delay_end: Some(counter_delay_end), ..self }),
    {
        NameStateAsserter { counter_delay_end: Some(counter_delay_end), ..self }
    }

    /// Set transition delay end to assert
    pub fn transition_delay_end(self, transition_delay_end: u64) -> (r: Self)
        ensures
            r == (NameStateAsserter { transition_delay_end: Some(transition_delay_end), ..self }),
    {
        NameStateAsserter { transition_delay_end: Some(transition_delay_end), ..self }
    }

    /// Set bid delay end to assert
    pub fn bid_delay_end(self, bid_delay_end: u64) -> (r: Self)
        ensures
            r == (NameStateAsserter { bid_delay_end: Some(bid_delay_end), ..self }),
    {
        NameStateAsserter { bid_delay_end: Some(bid_delay_end), ..self }
    }

    /// Set expire time to assert
    pub fn expire_time(self, expire_time: Option<u64>) -> (r: Self)
        ensures
            r == (NameStateAsserter { expire_time: Some(expire_time), ..self }),
    {
        NameStateAsserter { expire_time: Some(expire_time), ..self }
    }

    /// Whether the record meets what was set of its own fields.
    pub open spec fn fields_hold(&self, name_state: &NameState) -> bool {
        &&& self.owner is Some ==> name_state.owner@ == self.owner->Some_0@
        &&& self.controller is Some ==> option_addr_view(name_state.controller) == option_str_view(
            self.controller->Some_0,
        )
        &&& self.rate is Some ==> name_state.rate == self.rate->Some_0
        &&& self.begin_time is Some ==> name_state.begin_time.0 == self.begin_time->Some_0
        &&& self.begin_deposit is Some ==> name_state.begin_deposit == self.begin_deposit->Some_0
        &&& self.previous_owner is Some ==> option_addr_view(name_state.previous_owner)
            == option_str_view(self.previous_owner->Some_0)
    }

    /// Whether the record meets what was set of the times that follow from
    /// it under `config`.
    pub open spec fn times_hold(&self, config: &Config, name_state: &NameState) -> bool {
        &&& self.counter_delay_end is Some ==> self.counter_delay_end->Some_0
            == name_state.begin_time.0 + config.counter_delay_secs.0
        &&& self.transition_delay_end is Some ==> self.transition_delay_end->Some_0 == (if name_state.transition_reference_time.is_zero() {
            name_state.begin_time.0 as int
        } else {
            name_state.transition_reference_time.0 + NameState::transition_span(config)
        })
        &&& self.bid_delay_end is Some ==> self.bid_delay_end->Some_0 == name_state.begin_time.0
            + name_state.bid_span(config)
        &&& self.expire_time is Some ==> name_state.spec_expire_time() == (match self.expire_time->Some_0 {
            Some(seconds) => Some(Timestamp(seconds)),
            None => None,
        })
    }

    /// Whether the record meets every expectation that was set.
    pub open spec fn holds(&self, config: &Config, name_state: &NameState) -> bool {
        self.fields_hold(name_state) && self.times_hold(config, name_state)
    }

    /// Check name state properties against the record of the name
    pub fn check(self, config: &Config, name_state: &NameState) -> (r: bool)
        ensures
            r == self.holds(config, name_state),
    {
        if let Some(owner) = self.owner {
            if name_state.owner != owner.to_owned() {
                return false;
            }
        }
        if let Some(controller) = self.controller {
            if !option_addr_is(&name_state.controller, controller) {
                return false;
            }
        }
        if let Some(rate) = self.rate {
            if name_state.rate != rate {
                return false;
            }
        }
        if let Some(begin_time) = self.begin_time {
            if name_state.begin_time.value() != begin_time {
                return false;
            }
        }
        if let Some(begin_deposit) = self.begin_deposit {
            if name_state.begin_deposit != begin_deposit {
                return false;
            }
        }
        if let Some(previous_owner) = self.previous_owner {
            if !option_addr_is(&name_state.previous_owner, previous_owner) {
                return false;
            }
        }
        let begin_time: u128 = name_state.begin_time.value() as u128;
        let counter_delay: u128 = config.counter_delay_secs.value() as u128;
        if let Some(counter_delay_end) = self.counter_delay_end {
            if counter_delay_end as u128 != begin_time + counter_delay {
                return false;
            }
        }
        if let Some(transition_delay_end) = self.transition_delay_end {
            let expected: u128 = if name_state.transition_reference_time.is_zero() {
                begin_time
            } else {
                name_state.transition_reference_time.value() as u128 + counter_delay
                    + config.transition_delay_secs.value() as u128
            };
            if transition_delay_end as u128 != expected {
                return false;
            }
        }
        if let Some(bid_delay_end) = self.bid_delay_end {
            let delay: u128 = if name_state.rate != 0 {
                counter_delay + config.bid_delay_secs.value() as u128
            } else {
                0
            };
            if bid_delay_end as u128 != begin_time + delay {
                return false;
            }
        }
        if let Some(expire_time) = self.expire_time {
            let expected = match expire_time {
                Some(seconds) => Some(Timestamp::from_seconds(seconds)),
                None => None,
            };
            if name_state.expire_time() != expected {
                return false;
            }
        }
        true
    }

    /// Check name state properties against the stored records, which must
    /// hold one for the name
    pub fn check_stored(self, config: &Config, entries: &Vec<(Vec<u8>, NameState)>) -> (r: bool)
        ensures
            r == (match lookup(entries@, self.name.spec_bytes()) {
                Some(name_state) => self.holds(config, &name_state),
                None => false,
            }),
    {
        match read_option_name_state(entries, self.name) {
            Some(name_state) => self.check(config, &name_state),
            None => false,
        }
    }
}

} // verus!
