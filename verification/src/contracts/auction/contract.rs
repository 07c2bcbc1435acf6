//! The calls of the auction contract, each a function from the stored state
//! and the call to the state to store and the messages to send.

use crate::auction::{
    deposit_ceil, deposit_floor, deposit_from_seconds_ceil, deposit_from_seconds_floor,
    AllNameStatesResponse, ConfigResponse, ExecuteMsg, InstantiateMsg, MigrateMsg, NameStateItem,
    NameStateResponse, QueryMsg,
};
use crate::contracts::auction::errors::ContractError;
use crate::contracts::auction::state::{
    clone_option_addr, collect_name_states, lemma_lookup_entry, lemma_page_entries, lookup,
    names_of_page, option_addr_eq, option_addr_view, page_limit, range_start, read_name_state,
    select_page, Config, NameState, OwnerStatus,
};
use crate::errors::StdError;
use crate::host::{get_sent_funds, sent_funds, Addr, Coin, CosmosMsg, Env, MessageInfo};
use crate::terra::{deduct_coin_tax, spec_deduct_coin_tax, TaxQuerier};
use crate::utils::Timestamp;
use vstd::prelude::*;
use vstd::utf8::{decode_utf8, encode_utf8, valid_utf8};

verus! {

/// What a call that succeeds hands back: the record to store under the
/// name, and the messages to send, in this order.
#[derive(Clone, Debug, PartialEq, Eq)]
pub struct Response {
    pub name_state: NameState,
    pub messages: Vec<CosmosMsg>,
}

/// A `Response` with its messages as a sequence.
pub struct Outcome {
    pub name_state: NameState,
    pub messages: Seq<CosmosMsg>,
}

impl View for Response {
    type V = Outcome;

    open spec fn view(&self) -> Outcome {
        Outcome { name_state: self.name_state, messages: self.messages@ }
    }
}

/// The result of a call with the response taken by its view.
pub open spec fn result_view(r: Result<Response, ContractError>) -> Result<Outcome, ContractError> {
    match r {
        Ok(response) => Ok(response@),
        Err(e) => Err(e),
    }
}

/// The message that refunds `amount` to `to`, less tax, where the tax can
/// be computed.
pub open spec fn spec_refund_deposit_msg(
    querier: &TaxQuerier,
    config: &Config,
    to: Addr,
    amount: u128,
) -> Result<CosmosMsg, StdError> {
    match spec_deduct_coin_tax(querier, config.stable_denom, amount) {
        Ok(coin) => Ok(CosmosMsg::BankSend { to_address: to, amount: coin }),
        Err(e) => Err(e),
    }
}

/// Create message for refund deposits
pub fn refund_deposit_msg(querier: &TaxQuerier, config: &Config, to: &Addr, amount: u128) -> (r:
    Result<CosmosMsg, StdError>)
    ensures
        r == spec_refund_deposit_msg(querier, config, *to, amount),
{
    let coin = Coin { denom: config.stable_denom.clone(), amount };
    match deduct_coin_tax(querier, coin) {
        Ok(coin) => Ok(CosmosMsg::BankSend { to_address: to.clone(), amount: coin }),
        Err(e) => Err(e),
    }
}

/// The message that forwards `amount` to the collector, less tax, where
/// the tax can be computed.
pub open spec fn spec_send_to_collector_msg(
    querier: &TaxQuerier,
    config: &Config,
    amount: u128,
) -> Result<CosmosMsg, StdError> {
    match spec_deduct_coin_tax(querier, config.stable_denom, amount) {
        Ok(coin) => Ok(
            CosmosMsg::CollectorDeposit { contract_addr: config.collector_addr, funds: coin },
        ),
        Err(e) => Err(e),
    }
}

/// Create message for sending deposits to collector
pub fn send_to_collector_msg(querier: &TaxQuerier, config: &Config, amount: u128) -> (r: Result<
    CosmosMsg,
    StdError,
>)
    ensures
        r == spec_send_to_collector_msg(querier, config, amount),
{
    let coin = Coin { denom: config.stable_denom.clone(), amount };
    match deduct_coin_tax(querier, coin) {
        Ok(coin) => Ok(
            CosmosMsg::CollectorDeposit {
                contract_addr: config.collector_addr.clone(),
                funds: coin,
            },
        ),
        Err(e) => Err(e),
    }
}

/// The configuration that `msg` asks for, unless the shortest lease is
/// longer than the longest.
pub open spec fn spec_instantiate(msg: InstantiateMsg) -> Result<Config, ContractError> {
    if msg.min_lease_secs.0 <= msg.max_lease_secs.0 {
        Ok(
            Config {
                collector_addr: msg.collector_addr,
                stable_denom: msg.stable_denom,
                min_lease_secs: msg.min_lease_secs,
                max_lease_secs: msg.max_lease_secs,
                counter_delay_secs: msg.counter_delay_secs,
                transition_delay_secs: msg.transition_delay_secs,
                bid_delay_secs: msg.bid_delay_secs,
            },
        )
    } else {
        Err(ContractError::InvalidConfig)
    }
}

/// The configuration to store for the contract, unless the shortest lease
/// is longer than the longest.
pub fn instantiate(msg: InstantiateMsg) -> (r: Result<Config, ContractError>)
    ensures
        r == spec_instantiate(msg),
        r is Ok ==> r->Ok_0.is_valid(),
{
    if !(msg.min_lease_secs.value() <= msg.max_lease_secs.value()) {
        return Err(ContractError::InvalidConfig);
    }
    Ok(
        Config {
            collector_addr: msg.collector_addr,
            stable_denom: msg.stable_denom,
            min_lease_secs: msg.min_lease_secs,
            max_lease_secs: msg.max_lease_secs,
            counter_delay_secs: msg.counter_delay_secs,
            transition_delay_secs: msg.transition_delay_secs,
            bid_delay_secs: msg.bid_delay_secs,
        },
    )
}

/// Whether `deposit` pays for no less than the shortest lease at `rate`,
/// rounded up, and for no more than the longest, rounded down.
pub open spec fn deposit_in_bounds(config: &Config, rate: u128, deposit: u128) -> bool {
    deposit_ceil(config.min_lease_secs.0 as nat, rate as nat) <= deposit <= deposit_floor(
        config.max_lease_secs.0 as nat,
        rate as nat,
    )
}

/// Whether `deposit` is within the bounds of a lease at `rate`.
pub fn check_deposit_bounds(config: &Config, rate: u128, deposit: u128) -> (r: bool)
    ensures
        r == deposit_in_bounds(config, rate, deposit),
{
    let above_min = match deposit_from_seconds_ceil(config.min_lease_secs, rate) {
        Some(min_deposit) => deposit >= min_deposit,
        None => false,
    };
    let below_max = match deposit_from_seconds_floor(config.max_lease_secs, rate) {
        Some(max_deposit) => deposit <= max_deposit,
        None => true,
    };
    above_min && below_max
}

/// A fresh bid: on a name that has no record, or whose record has expired.
pub open spec fn spec_execute_bid_new(
    config: &Config,
    querier: &TaxQuerier,
    current_time: Timestamp,
    sender: Addr,
    deposit: u128,
    rate: u128,
    transition_reference_time: Timestamp,
) -> Result<Outcome, ContractError> {
    let name_state = NameState {
        owner: sender,
        controller: None,
        transition_reference_time,
        rate,
        begin_time: current_time,
        begin_deposit: deposit,
        previous_owner: None,
        previous_transition_reference_time: Timestamp(0),
    };
    if !deposit_in_bounds(config, rate, deposit) {
        Err(ContractError::BidInvalidInterval)
    } else if deposit == 0 {
        Ok(Outcome { name_state, messages: Seq::empty() })
    } else {
        match spec_send_to_collector_msg(querier, config, deposit) {
            Ok(msg) => Ok(Outcome { name_state, messages: seq![msg] }),
            Err(e) => Err(ContractError::Std { source: e }),
        }
    }
}

/// Bid on a name that has no record, or whose record has expired. The
/// transition reference of the new record is `transition_reference_time`.
pub fn execute_bid_new(
    config: &Config,
    querier: &TaxQuerier,
    env: Env,
    info: &MessageInfo,
    rate: u128,
    transition_reference_time: Timestamp,
) -> (r: Result<Response, ContractError>)
    ensures
        result_view(r) == spec_execute_bid_new(
            config,
            querier,
            env.time,
            info.sender,
            sent_funds(info.funds@, config.stable_denom@),
            rate,
            transition_reference_time,
        ),
{
    let msg_deposit = get_sent_funds(info, &config.stable_denom);
    let begin_time = env.time;

    if !check_deposit_bounds(config, rate, msg_deposit) {
        return Err(ContractError::BidInvalidInterval);
    }
    let name_state = NameState {
        owner: info.sender.clone(),
        controller: None,
        transition_reference_time,
        rate,
        begin_time,
        begin_deposit: msg_deposit,
        previous_owner: None,
        previous_transition_reference_time: Timestamp::zero(),
    };

    let mut messages: Vec<CosmosMsg> = Vec::new();

    // Send deposit to fund
    if msg_deposit != 0 {
        match send_to_collector_msg(querier, config, msg_deposit) {
            Ok(msg) => messages.push(msg),
            Err(e) => { return Err(ContractError::Std { source: e }); },
        }
        assert(messages@ =~= seq![messages@[0]]);
    } else {
        assert(messages@ =~= Seq::empty());
    }
    Ok(Response { name_state, messages })
}

/// Whether the lease that began `seconds_spent` ago is closed for bids: the
/// counter delay is over, the bid delay that follows it is not, and the
/// rate is not zero.
pub open spec fn closed_for_bids(config: &Config, name_state: &NameState, seconds_spent: int) -> bool {
    config.counter_delay_secs.0 <= seconds_spent < config.counter_delay_secs.0
        + config.bid_delay_secs.0 && name_state.rate != 0
}

/// The record after `sender` has outbid its holder, where `owner` is the
/// owner of the name until now and `transition_reference_time` the
/// reference of the phase until now. The transition reference moves to
/// `current_time` only where the name goes to someone else than `owner`.
pub open spec fn outbid_name_state(
    name_state: &NameState,
    current_time: Timestamp,
    sender: Addr,
    deposit: u128,
    rate: u128,
    owner: Option<Addr>,
    transition_reference_time: Timestamp,
) -> NameState {
    NameState {
        owner: sender,
        controller: name_state.controller,
        transition_reference_time: if Some(sender@) != option_addr_view(owner) {
            current_time
        } else {
            transition_reference_time
        },
        rate,
        begin_time: current_time,
        begin_deposit: deposit,
        previous_owner: owner,
        previous_transition_reference_time: transition_reference_time,
    }
}

/// The messages of a bid that outbids `previous_bidder`: the refund of
/// what is left of the deposit, if anything, then the rest of the new
/// deposit to the collector.
pub open spec fn outbid_messages(
    querier: &TaxQuerier,
    config: &Config,
    previous_bidder: Addr,
    deposit: u128,
    deposit_left: u128,
) -> Result<Seq<CosmosMsg>, StdError>
    recommends
        deposit >= deposit_left,
{
    let refund = spec_refund_deposit_msg(querier, config, previous_bidder, deposit_left);
    let excess = spec_send_to_collector_msg(
        querier,
        config,
        (deposit - deposit_left) as u128,
    );
    if deposit_left != 0 && refund is Err {
        Err(refund->Err_0)
    } else if excess is Err {
        Err(excess->Err_0)
    } else if deposit_left != 0 {
        Ok(seq![refund->Ok_0, excess->Ok_0])
    } else {
        Ok(seq![excess->Ok_0])
    }
}

/// A bid on a name whose record has not expired.
pub open spec fn spec_execute_bid_existing(
    config: &Config,
    querier: &TaxQuerier,
    name_state: &NameState,
    current_time: Timestamp,
    sender: Addr,
    deposit: u128,
    rate: u128,
    owner: Option<Addr>,
    transition_reference_time: Timestamp,
) -> Result<Outcome, ContractError>
    recommends
        current_time.0 >= name_state.begin_time.0,
{
    let deposit_left = name_state.spec_current_deposit(current_time);
    if sender@ == name_state.owner@ {
        Err(ContractError::Unauthorized)
    } else if closed_for_bids(config, name_state, current_time.0 - name_state.begin_time.0) {
        Err(ContractError::ClosedForBids)
    } else if rate <= name_state.rate {
        Err(ContractError::BidRateTooLow { rate: name_state.rate })
    } else if deposit <= deposit_left {
        Err(ContractError::BidDepositTooLow { deposit: deposit_left })
    } else if !deposit_in_bounds(config, rate, deposit) {
        Err(ContractError::BidInvalidInterval)
    } else {
        match outbid_messages(querier, config, name_state.owner, deposit, deposit_left) {
            Ok(messages) => Ok(
                Outcome {
                    name_state: outbid_name_state(
                        name_state,
                        current_time,
                        sender,
                        deposit,
                        rate,
                        owner,
                        transition_reference_time,
                    ),
                    messages,
                },
            ),
            Err(e) => Err(ContractError::Std { source: e }),
        }
    }
}

/// Bid on a name whose record has not expired, where `owner` owns the name
/// in its phase and `transition_reference_time` is the reference of that
/// phase. The time of the call is not before the begin of the lease.
pub fn execute_bid_existing(
    config: &Config,
    querier: &TaxQuerier,
    name_state: NameState,
    env: Env,
    info: &MessageInfo,
    rate: u128,
    owner: Option<Addr>,
    transition_reference_time: Timestamp,
) -> (r: Result<Response, ContractError>)
    requires
        env.time.0 >= name_state.begin_time.0,
    ensures
        result_view(r) == spec_execute_bid_existing(
            config,
            querier,
            &name_state,
            env.time,
            info.sender,
            sent_funds(info.funds@, config.stable_denom@),
            rate,
            owner,
            transition_reference_time,
        ),
{
    if info.sender == name_state.owner {
        return Err(ContractError::Unauthorized);
    }
    let seconds_spent_since_bid: u64 = env.time.value() - name_state.begin_time.value();

    if seconds_spent_since_bid >= config.counter_delay_secs.value() && (
    seconds_spent_since_bid as u128) < config.counter_delay_secs.value() as u128
        + config.bid_delay_secs.value() as u128 && name_state.rate != 0 {
        return Err(ContractError::ClosedForBids);
    }
    if rate <= name_state.rate {
        return Err(ContractError::BidRateTooLow { rate: name_state.rate });
    }
    let msg_deposit = get_sent_funds(info, &config.stable_denom);
    let deposit_left = name_state.current_deposit(env.time);

    if msg_deposit <= deposit_left {
        return Err(ContractError::BidDepositTooLow { deposit: deposit_left });
    }
    if !check_deposit_bounds(config, rate, msg_deposit) {
        return Err(ContractError::BidInvalidInterval);
    }
    let sender = Some(info.sender.clone());
    // Only update transition reference time if ownership is assigned to a new
    // owner.
    let new_transition_reference_time = if !option_addr_eq(&sender, &owner) {
        env.time
    } else {
        transition_reference_time
    };
    let previous_bidder = name_state.owner;
    let new_name_state = NameState {
        owner: info.sender.clone(),
        controller: name_state.controller,
        transition_reference_time: new_transition_reference_time,
        rate,
        begin_time: env.time,
        begin_deposit: msg_deposit,
        previous_owner: owner,
        previous_transition_reference_time: transition_reference_time,
    };

    let mut messages: Vec<CosmosMsg> = Vec::new();

    // Refund previous owner
    if deposit_left != 0 {
        match refund_deposit_msg(querier, config, &previous_bidder, deposit_left) {
            Ok(msg) => messages.push(msg),
            Err(e) => { return Err(ContractError::Std { source: e }); },
        }
    }
    // Send excess deposit to collector

    let excess_deposit: u128 = msg_deposit - deposit_left;
    match send_to_collector_msg(querier, config, excess_deposit) {
        Ok(msg) => messages.push(msg),
        Err(e) => { return Err(ContractError::Std { source: e }); },
    }
    proof {
        let expected = outbid_messages(
            querier,
            config,
            previous_bidder,
            msg_deposit,
            deposit_left,
        );
        assert(expected is Ok);
        assert(messages@ =~= expected->Ok_0);
    }
    Ok(Response { name_state: new_name_state, messages })
}

/// A bid on a name: a fresh one where the name has no record or an expired
/// one, else one that must outbid the holder of the record.
pub open spec fn spec_execute_bid(
    config: &Config,
    querier: &TaxQuerier,
    name_state: Option<NameState>,
    current_time: Timestamp,
    sender: Addr,
    deposit: u128,
    rate: u128,
) -> Result<Outcome, ContractError> {
    match name_state {
        None => spec_execute_bid_new(
            config,
            querier,
            current_time,
            sender,
            deposit,
            rate,
            Timestamp(0),
        ),
        Some(name_state) => match name_state.spec_owner_status(config, current_time) {
            OwnerStatus::Valid { owner, transition_reference_time }
            | OwnerStatus::TransitionDelay {
                owner,
                transition_reference_time,
            } => spec_execute_bid_existing(
                config,
                querier,
                &name_state,
                current_time,
                sender,
                deposit,
                rate,
                Some(owner),
                transition_reference_time,
            ),
            OwnerStatus::CounterDelay {
                name_owner,
                transition_reference_time,
                ..
            } => spec_execute_bid_existing(
                config,
                querier,
                &name_state,
                current_time,
                sender,
                deposit,
                rate,
                name_owner,
                transition_reference_time,
            ),
            OwnerStatus::Expired { expire_time, .. } => spec_execute_bid_new(
                config,
                querier,
                current_time,
                sender,
                deposit,
                rate,
                expire_time,
            ),
        },
    }
}

/// Bid on a name at `rate`, with the funds of the call as the deposit.
pub fn execute_bid(
    config: &Config,
    querier: &TaxQuerier,
    name_state: Option<NameState>,
    env: Env,
    info: &MessageInfo,
    rate: u128,
) -> (r: Result<Response, ContractError>)
    ensures
        result_view(r) == spec_execute_bid(
            config,
            querier,
            name_state,
            env.time,
            info.sender,
            sent_funds(info.funds@, config.stable_denom@),
            rate,
        ),
{
    if let Some(name_state) = name_state {
        let owner_status = name_state.owner_status(config, env.time);
        match owner_status {
            OwnerStatus::Valid { owner, transition_reference_time } => {
                execute_bid_existing(
                    config,
                    querier,
                    name_state,
                    env,
                    info,
                    rate,
                    Some(owner),
                    transition_reference_time,
                )
            },
            OwnerStatus::TransitionDelay { owner, transition_reference_time } => {
                execute_bid_existing(
                    config,
                    querier,
                    name_state,
                    env,
                    info,
                    rate,
                    Some(owner),
                    transition_reference_time,
                )
            },
            OwnerStatus::CounterDelay { name_owner: owner, transition_reference_time, .. } => {
                execute_bid_existing(
                    config,
                    querier,
                    name_state,
                    env,
                    info,
                    rate,
                    owner,
                    transition_reference_time,
                )
            },
            OwnerStatus::Expired { expire_time, .. } => {
                execute_bid_new(config, querier, env, info, rate, expire_time)
            },
        }
    } else {
        execute_bid_new(config, querier, env, info, rate, Timestamp::zero())
    }
}

/// Funding of a name by `attached` coins at `current_time`, on behalf of
/// the holder `owner`.
pub open spec fn spec_execute_fund(
    config: &Config,
    querier: &TaxQuerier,
    name_state: &NameState,
    current_time: Timestamp,
    attached: u128,
    owner: Addr,
) -> Result<Outcome, ContractError> {
    let combined = name_state.begin_deposit + attached;
    let max_deposit = name_state.spec_max_allowed_deposit(config, current_time);
    if attached == 0 {
        Err(ContractError::Unfunded)
    } else if name_state.owner@ != owner@ {
        Err(ContractError::UnexpectedState)
    } else if max_deposit is Some && combined > max_deposit->Some_0 {
        Err(ContractError::BidInvalidInterval)
    } else if combined > u128::MAX {
        Err(ContractError::Overflow)
    } else {
        match spec_send_to_collector_msg(querier, config, attached) {
            Ok(msg) => Ok(
                Outcome {
                    name_state: NameState { begin_deposit: combined as u128, ..*name_state },
                    messages: seq![msg],
                },
            ),
            Err(e) => Err(ContractError::Std { source: e }),
        }
    }
}

/// Add the funds of the call to the deposit of a name, on behalf of its
/// holder `owner`.
pub fn execute_fund(
    config: &Config,
    querier: &TaxQuerier,
    name_state: NameState,
    env: Env,
    info: &MessageInfo,
    owner: Addr,
) -> (r: Result<Response, ContractError>)
    ensures
        result_view(r) == spec_execute_fund(
            config,
            querier,
            &name_state,
            env.time,
            sent_funds(info.funds@, config.stable_denom@),
            owner,
        ),
{
    let msg_deposit = get_sent_funds(info, &config.stable_denom);
    if msg_deposit == 0 {
        return Err(ContractError::Unfunded);
    }
    if name_state.owner != owner {
        return Err(ContractError::UnexpectedState);
    }
    let max_deposit = name_state.max_allowed_deposit(config, env.time);
    let combined_deposit = match msg_deposit.checked_add(name_state.begin_deposit) {
        Some(combined_deposit) => combined_deposit,
        None => {
            return match max_deposit {
                Some(_) => Err(ContractError::BidInvalidInterval),
                None => Err(ContractError::Overflow),
            };
        },
    };
    if let Some(max_deposit) = max_deposit {
        if combined_deposit > max_deposit {
            return Err(ContractError::BidInvalidInterval);
        }
    }
    let mut messages: Vec<CosmosMsg> = Vec::new();

    // Send deposit to fund
    match send_to_collector_msg(querier, config, msg_deposit) {
        Ok(msg) => messages.push(msg),
        Err(e) => { return Err(ContractError::Std { source: e }); },
    }
    assert(messages@ =~= seq![messages@[0]]);
    let mut name_state = name_state;
    name_state.begin_deposit = combined_deposit;
    Ok(Response { name_state, messages })
}

/// A change of the rate to `rate` by `sender` at `current_time`: the lease
/// begins anew with what is left of the deposit.
pub open spec fn spec_execute_set_rate(
    config: &Config,
    name_state: &NameState,
    current_time: Timestamp,
    sender: Addr,
    rate: u128,
) -> Result<Outcome, ContractError> {
    let new_deposit = name_state.spec_current_deposit(current_time);
    if !name_state.spec_owner_status(config, current_time).spec_can_set_rate(sender@) {
        Err(ContractError::Unauthorized)
    } else if !deposit_in_bounds(config, rate, new_deposit) {
        Err(ContractError::BidInvalidInterval)
    } else {
        Ok(
            Outcome {
                name_state: NameState {
                    rate,
                    begin_time: current_time,
                    begin_deposit: new_deposit,
                    previous_owner: Some(name_state.owner),
                    previous_transition_reference_time: name_state.transition_reference_time,
                    ..*name_state
                },
                messages: Seq::empty(),
            },
        )
    }
}

/// Change the rate of a name to `rate`, as its owner.
pub fn execute_set_rate(
    config: &Config,
    name_state: NameState,
    env: Env,
    info: &MessageInfo,
    rate: u128,
) -> (r: Result<Response, ContractError>)
    ensures
        result_view(r) == spec_execute_set_rate(config, &name_state, env.time, info.sender, rate),
{
    let owner_status = name_state.owner_status(config, env.time);

    if !owner_status.can_set_rate(&info.sender) {
        return Err(ContractError::Unauthorized);
    }
    // Always round up spent deposit to avoid charging too little.
    let new_deposit = name_state.current_deposit(env.time);

    if !check_deposit_bounds(config, rate, new_deposit) {
        return Err(ContractError::BidInvalidInterval);
    }
    let mut name_state = name_state;
    name_state.rate = rate;
    name_state.begin_time = env.time;
    name_state.begin_deposit = new_deposit;
    name_state.previous_owner = Some(name_state.owner.clone());
    name_state.previous_transition_reference_time = name_state.transition_reference_time;

    let messages: Vec<CosmosMsg> = Vec::new();
    assert(messages@ =~= Seq::empty());
    Ok(Response { name_state, messages })
}

/// A transfer to `to` by `sender` at `current_time`: of the name by its
/// owner, or of the bid by its holder while it can be countered.
pub open spec fn spec_execute_transfer_owner(
    config: &Config,
    name_state: &NameState,
    current_time: Timestamp,
    sender: Addr,
    to: Addr,
) -> Result<Outcome, ContractError> {
    let owner_status = name_state.spec_owner_status(config, current_time);
    if owner_status.spec_can_transfer_name_owner(sender@) {
        if owner_status is CounterDelay {
            Ok(
                Outcome {
                    name_state: NameState { previous_owner: Some(to), ..*name_state },
                    messages: Seq::empty(),
                },
            )
        } else {
            Ok(
                Outcome {
                    name_state: NameState { owner: to, ..*name_state },
                    messages: Seq::empty(),
                },
            )
        }
    } else if owner_status.spec_can_transfer_bid_owner(sender@) {
        Ok(
            Outcome {
                name_state: NameState { owner: to, ..*name_state },
                messages: Seq::empty(),
            },
        )
    } else {
        Err(ContractError::Unauthorized)
    }
}

/// Transfer a name, or a bid on it that can be countered, to `to`.
pub fn execute_transfer_owner(
    config: &Config,
    name_state: NameState,
    env: Env,
    info: &MessageInfo,
    to: Addr,
) -> (r: Result<Response, ContractError>)
    ensures
        result_view(r) == spec_execute_transfer_owner(
            config,
            &name_state,
            env.time,
            info.sender,
            to,
        ),
{
    let owner_status = name_state.owner_status(config, env.time);
    let mut name_state = name_state;

    if owner_status.can_transfer_name_owner(&info.sender) {
        match owner_status {
            // In the counter-delay state, the current owner is determined by
            // previous_owner since owner is the current highest bid holder.
            OwnerStatus::CounterDelay { .. } => {
                name_state.previous_owner = Some(to);
            },
            _ => {
                name_state.owner = to;
            },
        }
    } else if owner_status.can_transfer_bid_owner(&info.sender) {
        // This lets the current highest bid holder transfer their bid.
        name_state.owner = to;
    } else {
        return Err(ContractError::Unauthorized);
    }
    let messages: Vec<CosmosMsg> = Vec::new();
    assert(messages@ =~= Seq::empty());
    Ok(Response { name_state, messages })
}

/// The naming of `controller` by `sender` at `current_time`.
pub open spec fn spec_execute_set_controller(
    config: &Config,
    name_state: &NameState,
    current_time: Timestamp,
    sender: Addr,
    controller: Addr,
) -> Result<Outcome, ContractError> {
    if name_state.spec_owner_status(config, current_time).spec_can_set_controller(sender@) {
        Ok(
            Outcome {
                name_state: NameState { controller: Some(controller), ..*name_state },
                messages: Seq::empty(),
            },
        )
    } else {
        Err(ContractError::Unauthorized)
    }
}

/// Name `controller` as the controller of a name, as its owner.
pub fn execute_set_controller(
    config: &Config,
    name_state: NameState,
    env: Env,
    info: &MessageInfo,
    controller: Addr,
) -> (r: Result<Response, ContractError>)
    ensures
        result_view(r) == spec_execute_set_controller(
            config,
            &name_state,
            env.time,
            info.sender,
            controller,
        ),
{
    let owner_status = name_state.owner_status(config, env.time);

    if !owner_status.can_set_controller(&info.sender) {
        return Err(ContractError::Unauthorized);
    }
    let mut name_state = name_state;
    name_state.controller = Some(controller);

    let messages: Vec<CosmosMsg> = Vec::new();
    assert(messages@ =~= Seq::empty());
    Ok(Response { name_state, messages })
}

/// A call of the contract on the record `name_state` of the name that the
/// message names. Only a bid can be made on a name without a record.
pub open spec fn spec_execute(
    config: &Config,
    querier: &TaxQuerier,
    name_state: Option<NameState>,
    current_time: Timestamp,
    sender: Addr,
    attached: u128,
    msg: ExecuteMsg,
) -> Result<Outcome, ContractError> {
    match msg {
        ExecuteMsg::BidName { name, rate } => spec_execute_bid(
            config,
            querier,
            name_state,
            current_time,
            sender,
            attached,
            rate,
        ),
        ExecuteMsg::FundName { name, owner } => match name_state {
            Some(name_state) => spec_execute_fund(
                config,
                querier,
                &name_state,
                current_time,
                attached,
                owner,
            ),
            None => Err(ContractError::Std { source: StdError::NotFound }),
        },
        ExecuteMsg::SetNameRate { name, rate } => match name_state {
            Some(name_state) => spec_execute_set_rate(
                config,
                &name_state,
                current_time,
                sender,
                rate,
            ),
            None => Err(ContractError::Std { source: StdError::NotFound }),
        },
        ExecuteMsg::TransferNameOwner { name, to } => match name_state {
            Some(name_state) => spec_execute_transfer_owner(
                config,
                &name_state,
                current_time,
                sender,
                to,
            ),
            None => Err(ContractError::Std { source: StdError::NotFound }),
        },
        ExecuteMsg::SetNameController { name, controller } => match name_state {
            Some(name_state) => spec_execute_set_controller(
                config,
                &name_state,
                current_time,
                sender,
                controller,
            ),
            None => Err(ContractError::Std { source: StdError::NotFound }),
        },
    }
}

/// A call of the contract on the record `name_state` of the name that the
/// message names.
pub fn execute(
    config: &Config,
    querier: &TaxQuerier,
    name_state: Option<NameState>,
    env: Env,
    info: &MessageInfo,
    msg: ExecuteMsg,
) -> (r: Result<Response, ContractError>)
    ensures
        result_view(r) == spec_execute(
            config,
            querier,
            name_state,
            env.time,
            info.sender,
            sent_funds(info.funds@, config.stable_denom@),
            msg,
        ),
{
    match msg {
        ExecuteMsg::BidName { name, rate } => {
            execute_bid(config, querier, name_state, env, info, rate)
        },
        ExecuteMsg::FundName { name, owner } => match name_state {
            Some(name_state) => execute_fund(config, querier, name_state, env, info, owner),
            None => Err(ContractError::Std { source: StdError::NotFound }),
        },
        ExecuteMsg::SetNameRate { name, rate } => match name_state {
            Some(name_state) => execute_set_rate(config, name_state, env, info, rate),
            None => Err(ContractError::Std { source: StdError::NotFound }),
        },
        ExecuteMsg::TransferNameOwner { name, to } => match name_state {
            Some(name_state) => execute_transfer_owner(config, name_state, env, info, to),
            None => Err(ContractError::Std { source: StdError::NotFound }),
        },
        ExecuteMsg::SetNameController { name, controller } => match name_state {
            Some(name_state) => execute_set_controller(config, name_state, env, info, controller),
            None => Err(ContractError::Std { source: StdError::NotFound }),
        },
    }
}

/// What a query answers.
#[derive(Clone, Debug, PartialEq, Eq)]
pub enum QueryResponse {
    Config(ConfigResponse),
    NameState(NameStateResponse),
    AllNameStates(AllNameStatesResponse),
}

/// The configuration as a query reports it.
pub fn query_config(config: &Config) -> (r: ConfigResponse)
    ensures
        r == (ConfigResponse {
            collector_addr: config.collector_addr,
            stable_denom: config.stable_denom,
            min_lease_secs: config.min_lease_secs,
            max_lease_secs: config.max_lease_secs,
            counter_delay_secs: config.counter_delay_secs,
            transition_delay_secs: config.transition_delay_secs,
            bid_delay_secs: config.bid_delay_secs,
        }),
{
    ConfigResponse {
        collector_addr: config.collector_addr.clone(),
        stable_denom: config.stable_denom.clone(),
        min_lease_secs: config.min_lease_secs,
        max_lease_secs: config.max_lease_secs,
        counter_delay_secs: config.counter_delay_secs,
        transition_delay_secs: config.transition_delay_secs,
        bid_delay_secs: config.bid_delay_secs,
    }
}

/// Who owns the name in a phase: nobody once it has expired, the previous
/// owner while the bid can be countered, else the holder of the record.
pub open spec fn name_owner_of(owner_status: OwnerStatus) -> Option<Addr> {
    match owner_status {
        OwnerStatus::Expired { .. } => None,
        OwnerStatus::CounterDelay { name_owner, .. } => name_owner,
        OwnerStatus::Valid { owner, .. } | OwnerStatus::TransitionDelay { owner, .. } => Some(
            owner,
        ),
    }
}

/// Who holds the highest bid in a phase: nobody once it has expired, else
/// the holder of the record.
pub open spec fn bid_owner_of(owner_status: OwnerStatus) -> Option<Addr> {
    match owner_status {
        OwnerStatus::Expired { .. } => None,
        OwnerStatus::CounterDelay { bid_owner, .. } => Some(bid_owner),
        OwnerStatus::Valid { owner, .. } | OwnerStatus::TransitionDelay { owner, .. } => Some(
            owner,
        ),
    }
}

/// The state of a name as a query at `current_time` reports it.
pub open spec fn spec_create_name_state_response(
    config: &Config,
    current_time: Timestamp,
    name_state: &NameState,
) -> NameStateResponse {
    let owner_status = name_state.spec_owner_status(config, current_time);
    NameStateResponse {
        name_owner: name_owner_of(owner_status),
        bid_owner: bid_owner_of(owner_status),
        controller: name_state.controller,
        rate: name_state.rate,
        begin_time: name_state.begin_time,
        begin_deposit: name_state.begin_deposit,
        current_deposit: name_state.spec_current_deposit(current_time),
        counter_delay_end: name_state.spec_counter_delay_end(config),
        transition_delay_end: name_state.spec_transition_delay_end(config),
        bid_delay_end: name_state.spec_bid_delay_end(config),
        expire_time: name_state.spec_expire_time(),
    }
}

/// The state of a name as a query at `current_time` reports it. The delays
/// of the record end within representable time.
pub fn create_name_state_response(
    config: &Config,
    current_time: Timestamp,
    name_state: &NameState,
) -> (r: NameStateResponse)
    requires
        name_state.delays_fit(config),
    ensures
        r == spec_create_name_state_response(config, current_time, name_state),
{
    let counter_delay_end = name_state.counter_delay_end(config);
    let transition_delay_end = name_state.transition_delay_end(config);
    let bid_delay_end = name_state.bid_delay_end(config);
    let expire_time = name_state.expire_time();

    let owner_status = name_state.owner_status(config, current_time);
    let current_deposit = name_state.current_deposit(current_time);

    let (name_owner, bid_owner) = match owner_status {
        OwnerStatus::Expired { .. } => (None, None),
        OwnerStatus::CounterDelay { name_owner, bid_owner, .. } => (name_owner, Some(bid_owner)),
        OwnerStatus::Valid { owner, .. } => (Some(owner.clone()), Some(owner)),
        OwnerStatus::TransitionDelay { owner, .. } => (Some(owner.clone()), Some(owner)),
    };

    NameStateResponse {
        name_owner,
        bid_owner,
        controller: clone_option_addr(&name_state.controller),
        rate: name_state.rate,
        begin_time: name_state.begin_time,
        begin_deposit: name_state.begin_deposit,
        current_deposit,
        counter_delay_end,
        transition_delay_end,
        bid_delay_end,
        expire_time,
    }
}

/// The state of a name at the time of the block.
pub fn query_name_state(config: &Config, env: Env, name_state: &NameState) -> (r:
    NameStateResponse)
    requires
        name_state.delays_fit(config),
    ensures
        r == spec_create_name_state_response(config, env.time, name_state),
{
    create_name_state_response(config, env.time, name_state)
}

/// Whether `items` report the records of `page` at `current_time`, each
/// under its key as a name.
pub open spec fn items_of_page(
    config: &Config,
    current_time: Timestamp,
    items: Seq<NameStateItem>,
    page: Seq<(Vec<u8>, NameState)>,
) -> bool {
    &&& items.len() == page.len()
    &&& forall|i: int|
        0 <= i < page.len() ==> (#[trigger] items[i]).name@ == decode_utf8(page[i].0@)
            && items[i].state == spec_create_name_state_response(
            config,
            current_time,
            &page[i].1,
        )
}

/// One page of the names with a record, in ascending order of their bytes,
/// from the first name after `start_after`. `entries` are the stored
/// records in that order.
pub fn query_all_name_states(
    config: &Config,
    env: Env,
    entries: &Vec<(Vec<u8>, NameState)>,
    start_after: Option<String>,
    limit: Option<u32>,
) -> (r: Result<AllNameStatesResponse, ContractError>)
    requires
        forall|i: int| 0 <= i < entries@.len() ==> (#[trigger] entries@[i]).1.delays_fit(config),
    ensures
        ({
            let page = select_page(entries@, start_key(start_after), page_limit(limit));
            &&& r is Ok <==> (forall|i: int|
                0 <= i < page.len() ==> valid_utf8(#[trigger] page[i].0@))
            &&& r is Ok ==> items_of_page(config, env.time, r->Ok_0.names@, page)
            &&& r is Err ==> r->Err_0 == ContractError::Std { source: StdError::InvalidUtf8 }
        }),
{
    let start: Option<&str> = match &start_after {
        Some(name) => Some(name.as_str()),
        None => None,
    };
    let ghost page = select_page(entries@, range_start(start), page_limit(limit));
    assert(range_start(start) == start_key(start_after));
    proof {
        lemma_page_entries(entries@, range_start(start), page_limit(limit));
    }
    let name_states = match collect_name_states(entries, start, limit) {
        Ok(name_states) => name_states,
        Err(e) => { return Err(ContractError::Std { source: e }); },
    };
    let mut names: Vec<NameStateItem> = Vec::new();
    let mut i: usize = 0;
    while i < name_states.len()
        invariant
            i <= name_states.len(),
            names.len() == i,
            names_of_page(name_states@, page),
            forall|j: int| 0 <= j < page.len() ==> (#[trigger] page[j]).1.delays_fit(config),
            forall|j: int|
                0 <= j < i ==> (#[trigger] names@[j]).name@ == decode_utf8(page[j].0@)
                    && names@[j].state == spec_create_name_state_response(
                    config,
                    env.time,
                    &page[j].1,
                ),
        decreases name_states.len() - i,
    {
        assert(name_states@[i as int].1 == page[i as int].1);
        let state = create_name_state_response(config, env.time, &name_states[i].1);
        names.push(NameStateItem { name: name_states[i].0.clone(), state });
        i += 1;
    }
    Ok(AllNameStatesResponse { names })
}

/// The key to start a page at, for the name to start after.
pub open spec fn start_key(start_after: Option<String>) -> Option<Seq<u8>> {
    match start_after {
        Some(name) => Some(encode_utf8(name@).push(0u8)),
        None => None,
    }
}

/// What a query for the state of `name` answers.
pub open spec fn spec_query_name_state(
    config: &Config,
    entries: Seq<(Vec<u8>, NameState)>,
    current_time: Timestamp,
    name: String,
) -> Result<QueryResponse, ContractError> {
    match lookup(entries, encode_utf8(name@)) {
        Some(name_state) => Ok(
            QueryResponse::NameState(
                spec_create_name_state_response(config, current_time, &name_state),
            ),
        ),
        None => Err(ContractError::Std { source: StdError::NotFound }),
    }
}

/// A query of the contract, answered from the configuration and the
/// stored records, which `entries` hold in ascending order of their keys.
pub fn query(config: &Config, entries: &Vec<(Vec<u8>, NameState)>, env: Env, msg: QueryMsg) -> (r:
    Result<QueryResponse, ContractError>)
    requires
        forall|i: int| 0 <= i < entries@.len() ==> (#[trigger] entries@[i]).1.delays_fit(config),
    ensures
        msg is Config ==> r is Ok && r->Ok_0 is Config && r->Ok_0->Config_0 == (ConfigResponse {
            collector_addr: config.collector_addr,
            stable_denom: config.stable_denom,
            min_lease_secs: config.min_lease_secs,
            max_lease_secs: config.max_lease_secs,
            counter_delay_secs: config.counter_delay_secs,
            transition_delay_secs: config.transition_delay_secs,
            bid_delay_secs: config.bid_delay_secs,
        }),
        msg is GetNameState ==> r == spec_query_name_state(
            config,
            entries@,
            env.time,
            msg->GetNameState_name,
        ),
        msg is GetAllNameStates ==> ({
            let page = select_page(
                entries@,
                start_key(msg->start_after),
                page_limit(msg->limit),
            );
            &&& r is Ok <==> (forall|i: int|
                0 <= i < page.len() ==> valid_utf8(#[trigger] page[i].0@))
            &&& r is Ok ==> r->Ok_0 is AllNameStates && items_of_page(
                config,
                env.time,
                r->Ok_0->AllNameStates_0.names@,
                page,
            )
            &&& r is Err ==> r->Err_0 == ContractError::Std { source: StdError::InvalidUtf8 }
        }),
{
    match msg {
        QueryMsg::Config {  } => Ok(QueryResponse::Config(query_config(config))),
        QueryMsg::GetNameState { name } => {
            proof {
                lemma_lookup_entry(entries@, encode_utf8(name@));
            }
            match read_name_state(entries, name.as_str()) {
                Ok(name_state) => Ok(
                    QueryResponse::NameState(query_name_state(config, env, &name_state)),
                ),
                Err(e) => Err(ContractError::Std { source: e }),
            }
        },
        QueryMsg::GetAllNameStates { start_after, limit } => {
            match query_all_name_states(config, env, entries, start_after, limit) {
                Ok(response) => Ok(QueryResponse::AllNameStates(response)),
                Err(e) => Err(e),
            }
        },
    }
}

/// Nothing changes on migration.
pub fn migrate(msg: MigrateMsg) -> (r: Result<Vec<CosmosMsg>, ContractError>)
    ensures
        r is Ok && r->Ok_0@.len() == 0,
{
    Ok(Vec::new())
}

} // verus!
