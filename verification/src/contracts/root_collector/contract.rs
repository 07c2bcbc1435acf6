//! The calls of the root collector, each a function from the stored state
//! and the call to the state to store and the messages to send.

use crate::contracts::root_collector::errors::ContractError;
use crate::contracts::root_collector::state::{Config, StakeState, State};
use crate::errors::StdError;
use crate::host::{get_sent_funds, sent_funds, Addr, Coin, CosmosMsg, Env, MessageInfo};
use crate::math::{ratio, Decimal, DECIMAL_FRACTIONAL};
use crate::root_collector::{
    ConfigResponse, Cw20ReceiveMsg, ExecuteMsg, InstantiateMsg, MigrateMsg, QueryMsg, ReceiveMsg,
    StakeStateResponse, StateResponse,
};
use crate::terra::{deduct_coin_tax, spec_deduct_coin_tax, TaxQuerier};
use crate::utils::Timestamp;
use vstd::prelude::*;

verus! {

/// What a call that succeeds hands back: the state of the collector to
/// store, the state of the staker that the call concerns, if it concerns
/// one, and the messages to send, in this order.
#[derive(Clone, Debug, PartialEq, Eq)]
pub struct Response {
    pub state: State,
    pub stake_state: Option<StakeState>,
    pub messages: Vec<CosmosMsg>,
}

/// A `Response` with its messages as a sequence.
pub struct Outcome {
    pub state: State,
    pub stake_state: Option<StakeState>,
    pub messages: Seq<CosmosMsg>,
}

impl View for Response {
    type V = Outcome;

    open spec fn view(&self) -> Outcome {
        Outcome { state: self.state, stake_state: self.stake_state, messages: self.messages@ }
    }
}

/// The result of a call with the response taken by its view.
pub open spec fn result_view(r: Result<Response, ContractError>) -> Result<Outcome, ContractError> {
    match r {
        Ok(response) => Ok(response@),
        Err(e) => Err(e),
    }
}

/// The message that pays `amount` to `to`, less tax, where the tax can be
/// computed.
pub open spec fn spec_send_dividend_msg(
    querier: &TaxQuerier,
    config: &Config,
    to: Addr,
    amount: u128,
) -> Result<CosmosMsg, StdError> {
    match spec_deduct_coin_tax(querier, config.stable_denom, amount) {
        Ok(coin) => Ok(CosmosMsg::BankSend { to_address: to, amount: coin }),
        Err(e) => Err(e),
    }
}

/// Create message for dividend deposits
pub fn send_dividend_msg(querier: &TaxQuerier, config: &Config, to: &Addr, amount: u128) -> (r:
    Result<CosmosMsg, StdError>)
    ensures
        r == spec_send_dividend_msg(querier, config, *to, amount),
{
    let coin = Coin { denom: config.stable_denom.clone(), amount };
    match deduct_coin_tax(querier, coin) {
        Ok(coin) => Ok(CosmosMsg::BankSend { to_address: to.clone(), amount: coin }),
        Err(e) => Err(e),
    }
}

/// Create message for sending tokens
pub fn send_tokens_msg(config: &Config, recipient: &Addr, amount: u128) -> (r: CosmosMsg)
    ensures
        r == (CosmosMsg::TokenTransfer {
            contract_addr: config.base_token,
            recipient: *recipient,
            amount,
        }),
{
    CosmosMsg::TokenTransfer {
        contract_addr: config.base_token.clone(),
        recipient: recipient.clone(),
        amount,
    }
}

/// The configuration and the state that a new collector starts with:
/// nothing staked, nothing left over, and a multiplier of zero.
pub fn instantiate(msg: InstantiateMsg) -> (r: (Config, State))
    ensures
        r.0 == (Config {
            base_token: msg.base_token,
            stable_denom: msg.stable_denom,
            unstake_delay: msg.unstake_delay,
        }),
        r.1 == (State { multiplier: Decimal(0), total_staked: 0, residual: 0 }),
{
    let config = Config {
        base_token: msg.base_token,
        stable_denom: msg.stable_denom,
        unstake_delay: msg.unstake_delay,
    };
    let state = State { multiplier: Decimal::zero(), total_staked: 0, residual: 0 };
    (config, state)
}

/// What a deposit adds to the multiplier: the pool per staked token, in
/// atomics, rounded down.
pub open spec fn deposit_per_stake(pool: nat, total_staked: nat) -> nat {
    ratio(pool, DECIMAL_FRACTIONAL as nat, total_staked)
}

/// What a pool pays out in whole units over all staked tokens at the
/// multiplier rise `per_stake`, rounded down.
pub open spec fn distributed(total_staked: nat, per_stake: nat) -> nat {
    ratio(total_staked, per_stake, DECIMAL_FRACTIONAL as nat)
}

/// The state after a deposit of `attached`: the deposit and the residual
/// are pooled; with nothing staked the pool stays as residual, else the
/// multiplier rises by the pool per staked token and the residual is what
/// that rise does not pay out.
pub open spec fn spec_deposit(state: State, attached: u128) -> Result<State, ContractError> {
    let pool = (attached + state.residual) as nat;
    let per_stake = deposit_per_stake(pool, state.total_staked as nat);
    if pool > u128::MAX {
        Err(ContractError::Overflow)
    } else if state.total_staked == 0 {
        Ok(State { residual: pool as u128, ..state })
    } else if state.multiplier.0 + per_stake > u128::MAX {
        Err(ContractError::Overflow)
    } else {
        Ok(
            State {
                multiplier: Decimal((state.multiplier.0 + per_stake) as u128),
                total_staked: state.total_staked,
                residual: (pool - distributed(state.total_staked as nat, per_stake)) as u128,
            },
        )
    }
}

/// A rise of the multiplier never pays out more than the pool it came
/// from, and leaves less than one unit per staked token undistributed
/// beyond what rounding the rise itself costs.
pub proof fn lemma_distributed_at_most_pool(pool: nat, total_staked: nat)
    requires
        total_staked > 0,
    ensures
        distributed(total_staked, deposit_per_stake(pool, total_staked)) <= pool,
{
    let f = DECIMAL_FRACTIONAL as int;
    let t = total_staked as int;
    let per = deposit_per_stake(pool, total_staked) as int;
    vstd::arithmetic::div_mod::lemma_fundamental_div_mod(pool * f, t);
    assert(t * per <= pool * f) by (nonlinear_arith)
        requires
            pool * f == t * per + (pool * f) % t,
            0 <= (pool * f) % t,
    ;
    vstd::arithmetic::div_mod::lemma_div_is_ordered(t * per, pool * f, f);
    vstd::arithmetic::div_mod::lemma_div_multiples_vanish(pool as int, f);
    assert(pool * f == f * pool) by (nonlinear_arith);
}

/// A deposit of `attached`: it changes the state of the collector only.
pub open spec fn spec_execute_deposit(state: State, attached: u128) -> Result<
    Outcome,
    ContractError,
> {
    match spec_deposit(state, attached) {
        Ok(new_state) => Ok(
            Outcome { state: new_state, stake_state: None, messages: Seq::empty() },
        ),
        Err(e) => Err(e),
    }
}

/// Take the funds of the call as a deposit to share among the stakers.
pub fn execute_deposit(config: &Config, state: State, info: &MessageInfo) -> (r: Result<
    Response,
    ContractError,
>)
    ensures
        result_view(r) == spec_execute_deposit(
            state,
            sent_funds(info.funds@, config.stable_denom@),
        ),
        r is Ok ==> r->Ok_0.state.multiplier.0 >= state.multiplier.0,
{
    let mut state = state;
    let deposit = match get_sent_funds(info, &config.stable_denom).checked_add(state.residual) {
        Some(deposit) => deposit,
        None => { return Err(ContractError::Overflow); },
    };
    let (deposit_per_stake, residual) = if state.total_staked != 0 {
        let deposit_per_stake = match Decimal::from_ratio(deposit, state.total_staked) {
            Some(deposit_per_stake) => deposit_per_stake,
            None => { return Err(ContractError::Overflow); },
        };
        proof {
            lemma_distributed_at_most_pool(deposit as nat, state.total_staked as nat);
        }
        let paid = match deposit_per_stake.checked_mul_amount(state.total_staked) {
            Some(paid) => paid,
            None => { return Err(ContractError::Overflow); },
        };
        (deposit_per_stake, deposit - paid)
    } else {
        (Decimal::zero(), deposit)
    };

    state.multiplier = match state.multiplier.checked_add(deposit_per_stake) {
        Some(multiplier) => multiplier,
        None => { return Err(ContractError::Overflow); },
    };
    state.residual = residual;

    let messages: Vec<CosmosMsg> = Vec::new();
    assert(messages@ =~= Seq::empty());
    Ok(Response { state, stake_state: None, messages })
}

/// The states after the staker with `stake_state` has unstaked `amount`
/// at `current_time`: the dividend and the unstaked amount are brought up
/// to date, then the amount moves from staked to unstaking, whose delay
/// begins anew.
pub open spec fn spec_unstake_tokens(
    config: &Config,
    state: State,
    stake_state: Option<StakeState>,
    current_time: Timestamp,
    amount: u128,
) -> Result<(State, StakeState), ContractError> {
    if stake_state is None || stake_state->Some_0.staked_amount < amount {
        Err(ContractError::InsufficientTokens)
    } else {
        match stake_state->Some_0.spec_update_dividend(state.multiplier) {
            None => Err(ContractError::Overflow),
            Some(with_dividend) => match with_dividend.spec_update_unstaked_amount(
                current_time,
                config.unstake_delay,
            ) {
                None => Err(ContractError::Overflow),
                Some(folded) => if folded.unstaking_amount + amount > u128::MAX
                    || state.total_staked < amount {
                    Err(ContractError::Overflow)
                } else {
                    Ok(
                        (
                            State {
                                total_staked: (state.total_staked - amount) as u128,
                                ..state
                            },
                            StakeState {
                                staked_amount: (folded.staked_amount - amount) as u128,
                                unstaking_amount: (folded.unstaking_amount + amount) as u128,
                                unstaking_begin_time: Some(current_time),
                                ..folded
                            },
                        ),
                    )
                },
            },
        }
    }
}

/// The unstaking of `amount` at `current_time`: no message is sent.
pub open spec fn spec_execute_unstake_tokens(
    config: &Config,
    state: State,
    stake_state: Option<StakeState>,
    current_time: Timestamp,
    amount: u128,
) -> Result<Outcome, ContractError> {
    match spec_unstake_tokens(config, state, stake_state, current_time, amount) {
        Ok((new_state, new_stake_state)) => Ok(
            Outcome {
                state: new_state,
                stake_state: Some(new_stake_state),
                messages: Seq::empty(),
            },
        ),
        Err(e) => Err(e),
    }
}

/// Unstake `amount` tokens of the staker with `stake_state`.
pub fn execute_unstake_tokens(
    config: &Config,
    state: State,
    stake_state: Option<StakeState>,
    env: Env,
    amount: u128,
) -> (r: Result<Response, ContractError>)
    ensures
        result_view(r) == spec_execute_unstake_tokens(config, state, stake_state, env.time, amount),
{
    let mut state = state;
    let mut stake_state = if let Some(stake_state) = stake_state {
        stake_state
    } else {
        return Err(ContractError::InsufficientTokens);
    };

    if stake_state.staked_amount < amount {
        return Err(ContractError::InsufficientTokens);
    }
    if !stake_state.update_dividend(state.multiplier) {
        return Err(ContractError::Overflow);
    }
    if !stake_state.update_unstaked_amount(env.time, config.unstake_delay) {
        return Err(ContractError::Overflow);
    }
    let unstaking_amount = match stake_state.unstaking_amount.checked_add(amount) {
        Some(unstaking_amount) => unstaking_amount,
        None => { return Err(ContractError::Overflow); },
    };
    let total_staked = match state.total_staked.checked_sub(amount) {
        Some(total_staked) => total_staked,
        None => { return Err(ContractError::Overflow); },
    };
    stake_state.staked_amount = stake_state.staked_amount - amount;
    stake_state.unstaking_amount = unstaking_amount;
    stake_state.unstaking_begin_time = Some(env.time);
    state.total_staked = total_staked;

    let messages: Vec<CosmosMsg> = Vec::new();
    assert(messages@ =~= Seq::empty());
    Ok(Response { state, stake_state: Some(stake_state), messages })
}

/// The state of a staker after the withdrawal of `amount` tokens at
/// `current_time`: the unstaked amount is brought up to date, then
/// lessened by the amount.
pub open spec fn spec_withdraw_tokens(
    config: &Config,
    stake_state: Option<StakeState>,
    current_time: Timestamp,
    amount: u128,
) -> Result<StakeState, ContractError> {
    match stake_state {
        None => Err(ContractError::InsufficientTokens),
        Some(stake_state) => match stake_state.spec_update_unstaked_amount(
            current_time,
            config.unstake_delay,
        ) {
            None => Err(ContractError::Overflow),
            Some(folded) => if folded.unstaked_amount < amount {
                Err(ContractError::InsufficientTokens)
            } else {
                Ok(
                    StakeState {
                        unstaked_amount: (folded.unstaked_amount - amount) as u128,
                        ..folded
                    },
                )
            },
        },
    }
}

/// Who receives a withdrawal: the address named, else the sender.
pub open spec fn recipient_of(to: Option<Addr>, sender: Addr) -> Addr {
    match to {
        Some(to) => to,
        None => sender,
    }
}

/// The withdrawal of `amount` tokens at `current_time`: the token
/// contract is told to transfer them to `recipient`.
pub open spec fn spec_execute_withdraw_tokens(
    config: &Config,
    state: State,
    stake_state: Option<StakeState>,
    current_time: Timestamp,
    amount: u128,
    recipient: Addr,
) -> Result<Outcome, ContractError> {
    match spec_withdraw_tokens(config, stake_state, current_time, amount) {
        Ok(new_stake_state) => Ok(
            Outcome {
                state,
                stake_state: Some(new_stake_state),
                messages: seq![
                    CosmosMsg::TokenTransfer {
                        contract_addr: config.base_token,
                        recipient,
                        amount,
                    },
                ],
            },
        ),
        Err(e) => Err(e),
    }
}

/// Withdraw `amount` unstaked tokens of the staker with `stake_state` to
/// `to`, or to the sender.
pub fn execute_withdraw_tokens(
    config: &Config,
    state: State,
    stake_state: Option<StakeState>,
    env: Env,
    info: &MessageInfo,
    amount: u128,
    to: Option<Addr>,
) -> (r: Result<Response, ContractError>)
    ensures
        result_view(r) == spec_execute_withdraw_tokens(
            config,
            state,
            stake_state,
            env.time,
            amount,
            recipient_of(to, info.sender),
        ),
{
    let mut stake_state = if let Some(stake_state) = stake_state {
        stake_state
    } else {
        return Err(ContractError::InsufficientTokens);
    };

    if !stake_state.update_unstaked_amount(env.time, config.unstake_delay) {
        return Err(ContractError::Overflow);
    }
    if stake_state.unstaked_amount < amount {
        return Err(ContractError::InsufficientTokens);
    }
    let mut messages: Vec<CosmosMsg> = Vec::new();

    stake_state.unstaked_amount = stake_state.unstaked_amount - amount;

    let recipient = match to {
        Some(to) => to,
        None => info.sender.clone(),
    };
    messages.push(send_tokens_msg(config, &recipient, amount));
    assert(messages@ =~= seq![messages@[0]]);
    Ok(Response { state, stake_state: Some(stake_state), messages })
}

/// The withdrawal of the dividend of a staker: its state with the dividend
/// brought up to date and paid out, and the message that pays it to `to`,
/// less tax.
pub open spec fn spec_withdraw_dividends(
    config: &Config,
    querier: &TaxQuerier,
    state: State,
    stake_state: Option<StakeState>,
    to: Addr,
) -> Result<(StakeState, CosmosMsg), ContractError> {
    match stake_state {
        None => Err(ContractError::InsufficientFunds),
        Some(stake_state) => match stake_state.spec_update_dividend(state.multiplier) {
            None => Err(ContractError::Overflow),
            Some(updated) => if updated.dividend == 0 {
                Err(ContractError::InsufficientFunds)
            } else {
                match spec_send_dividend_msg(querier, config, to, updated.dividend) {
                    Ok(msg) => Ok((StakeState { dividend: 0, ..updated }, msg)),
                    Err(e) => Err(ContractError::Std { source: e }),
                }
            },
        },
    }
}

/// The withdrawal of the dividend of a staker to `recipient`.
pub open spec fn spec_execute_withdraw_dividends(
    config: &Config,
    querier: &TaxQuerier,
    state: State,
    stake_state: Option<StakeState>,
    recipient: Addr,
) -> Result<Outcome, ContractError> {
    match spec_withdraw_dividends(config, querier, state, stake_state, recipient) {
        Ok((new_stake_state, msg)) => Ok(
            Outcome { state, stake_state: Some(new_stake_state), messages: seq![msg] },
        ),
        Err(e) => Err(e),
    }
}

/// Withdraw the dividend of the staker with `stake_state` to `to`, or to
/// the sender.
pub fn execute_withdraw_dividends(
    config: &Config,
    querier: &TaxQuerier,
    state: State,
    stake_state: Option<StakeState>,
    info: &MessageInfo,
    to: Option<Addr>,
) -> (r: Result<Response, ContractError>)
    ensures
        result_view(r) == spec_execute_withdraw_dividends(
            config,
            querier,
            state,
            stake_state,
            recipient_of(to, info.sender),
        ),
{
    let mut stake_state = if let Some(stake_state) = stake_state {
        stake_state
    } else {
        return Err(ContractError::InsufficientFunds);
    };

    if !stake_state.update_dividend(state.multiplier) {
        return Err(ContractError::Overflow);
    }
    if stake_state.dividend == 0 {
        return Err(ContractError::InsufficientFunds);
    }
    let recipient = match to {
        Some(to) => to,
        None => info.sender.clone(),
    };
    let mut messages: Vec<CosmosMsg> = Vec::new();
    match send_dividend_msg(querier, config, &recipient, stake_state.dividend) {
        Ok(msg) => messages.push(msg),
        Err(e) => { return Err(ContractError::Std { source: e }); },
    }
    assert(messages@ =~= seq![messages@[0]]);

    stake_state.dividend = 0;
    Ok(Response { state, stake_state: Some(stake_state), messages })
}

/// The states after `amount` tokens were staked for the account with
/// `stake_state`: a known staker has its dividend brought up to date
/// first, a new one starts at the current multiplier.
pub open spec fn spec_receive_stake(
    state: State,
    stake_state: Option<StakeState>,
    amount: u128,
) -> Result<(State, StakeState), ContractError> {
    let staked = match stake_state {
        Some(stake_state) => match stake_state.spec_update_dividend(state.multiplier) {
            Some(updated) => if updated.staked_amount + amount <= u128::MAX {
                Some(
                    StakeState {
                        staked_amount: (updated.staked_amount + amount) as u128,
                        ..updated
                    },
                )
            } else {
                None
            },
            None => None,
        },
        None => Some(
            StakeState {
                multiplier: state.multiplier,
                staked_amount: amount,
                unstaking_amount: 0,
                unstaked_amount: 0,
                unstaking_begin_time: None,
                dividend: 0,
            },
        ),
    };
    if staked is None || state.total_staked + amount > u128::MAX {
        Err(ContractError::Overflow)
    } else {
        Ok(
            (
                State { total_staked: (state.total_staked + amount) as u128, ..state },
                staked->Some_0,
            ),
        )
    }
}

/// The staking of `amount` received tokens: no message is sent.
pub open spec fn spec_execute_receive_stake(
    state: State,
    stake_state: Option<StakeState>,
    amount: u128,
) -> Result<Outcome, ContractError> {
    match spec_receive_stake(state, stake_state, amount) {
        Ok((new_state, new_stake_state)) => Ok(
            Outcome {
                state: new_state,
                stake_state: Some(new_stake_state),
                messages: Seq::empty(),
            },
        ),
        Err(e) => Err(e),
    }
}

/// Stake `amount` received tokens for the account with `stake_state`.
pub fn execute_receive_stake(state: State, stake_state: Option<StakeState>, amount: u128) -> (r:
    Result<Response, ContractError>)
    ensures
        result_view(r) == spec_execute_receive_stake(state, stake_state, amount),
{
    let mut state = state;
    let stake_state = if let Some(stake_state) = stake_state {
        let mut stake_state = stake_state;
        if !stake_state.update_dividend(state.multiplier) {
            return Err(ContractError::Overflow);
        }
        stake_state.staked_amount = match stake_state.staked_amount.checked_add(amount) {
            Some(staked_amount) => staked_amount,
            None => { return Err(ContractError::Overflow); },
        };
        stake_state
    } else {
        StakeState {
            multiplier: state.multiplier,
            staked_amount: amount,
            unstaking_amount: 0,
            unstaked_amount: 0,
            unstaking_begin_time: None,
            dividend: 0,
        }
    };
    state.total_staked = match state.total_staked.checked_add(amount) {
        Some(total_staked) => total_staked,
        None => { return Err(ContractError::Overflow); },
    };
    let messages: Vec<CosmosMsg> = Vec::new();
    assert(messages@ =~= Seq::empty());
    Ok(Response { state, stake_state: Some(stake_state), messages })
}

/// Tokens received: only the base token contract may report them, and
/// they are staked for the account that sent them.
pub open spec fn spec_execute_receive(
    config: &Config,
    state: State,
    stake_state: Option<StakeState>,
    sender: Addr,
    wrapper: Cw20ReceiveMsg,
) -> Result<Outcome, ContractError> {
    if sender@ != config.base_token@ {
        Err(ContractError::Unauthorized)
    } else {
        spec_execute_receive_stake(state, stake_state, wrapper.amount)
    }
}

/// Take what the token contract reports of tokens sent to the collector.
pub fn execute_receive(
    config: &Config,
    state: State,
    stake_state: Option<StakeState>,
    info: &MessageInfo,
    wrapper: Cw20ReceiveMsg,
) -> (r: Result<Response, ContractError>)
    ensures
        result_view(r) == spec_execute_receive(config, state, stake_state, info.sender, wrapper),
{
    if info.sender != config.base_token {
        return Err(ContractError::Unauthorized);
    }
    match wrapper.msg {
        ReceiveMsg::Stake {  } => execute_receive_stake(state, stake_state, wrapper.amount),
    }
}

/// A call of the contract. `stake_state` is what is stored for the
/// account that the call concerns: the sender of received tokens, else the
/// sender of the call.
pub open spec fn spec_execute(
    config: &Config,
    querier: &TaxQuerier,
    state: State,
    stake_state: Option<StakeState>,
    current_time: Timestamp,
    sender: Addr,
    attached: u128,
    msg: ExecuteMsg,
) -> Result<Outcome, ContractError> {
    match msg {
        ExecuteMsg::Deposit {  } => spec_execute_deposit(state, attached),
        ExecuteMsg::UnstakeTokens { amount } => spec_execute_unstake_tokens(
            config,
            state,
            stake_state,
            current_time,
            amount,
        ),
        ExecuteMsg::WithdrawTokens { amount, to } => spec_execute_withdraw_tokens(
            config,
            state,
            stake_state,
            current_time,
            amount,
            recipient_of(to, sender),
        ),
        ExecuteMsg::WithdrawDividends { to } => spec_execute_withdraw_dividends(
            config,
            querier,
            state,
            stake_state,
            recipient_of(to, sender),
        ),
        ExecuteMsg::Receive(wrapper) => spec_execute_receive(
            config,
            state,
            stake_state,
            sender,
            wrapper,
        ),
    }
}

/// A call of the contract on the state of the collector and of the
/// account that the call concerns.
pub fn execute(
    config: &Config,
    querier: &TaxQuerier,
    state: State,
    stake_state: Option<StakeState>,
    env: Env,
    info: &MessageInfo,
    msg: ExecuteMsg,
) -> (r: Result<Response, ContractError>)
    ensures
        result_view(r) == spec_execute(
            config,
            querier,
            state,
            stake_state,
            env.time,
            info.sender,
            sent_funds(info.funds@, config.stable_denom@),
            msg,
        ),
{
    match msg {
        ExecuteMsg::Deposit {  } => execute_deposit(config, state, info),
        ExecuteMsg::UnstakeTokens { amount } => {
            execute_unstake_tokens(config, state, stake_state, env, amount)
        },
        ExecuteMsg::WithdrawTokens { amount, to } => {
            execute_withdraw_tokens(config, state, stake_state, env, info, amount, to)
        },
        ExecuteMsg::WithdrawDividends { to } => {
            execute_withdraw_dividends(config, querier, state, stake_state, info, to)
        },
        ExecuteMsg::Receive(msg) => execute_receive(config, state, stake_state, info, msg),
    }
}

/// What a query answers.
#[derive(Clone, Debug, PartialEq, Eq)]
pub enum QueryResponse {
    Config(ConfigResponse),
    State(StateResponse),
    StakeState(StakeStateResponse),
}

/// The configuration as a query reports it.
pub fn query_config(config: &Config) -> (r: ConfigResponse)
    ensures
        r == (ConfigResponse {
            base_token: config.base_token,
            stable_denom: config.stable_denom,
            unstake_delay: config.unstake_delay,
        }),
{
    ConfigResponse {
        base_token: config.base_token.clone(),
        stable_denom: config.stable_denom.clone(),
        unstake_delay: config.unstake_delay,
    }
}

/// The state of the collector as a query reports it.
pub fn query_state(state: &State) -> (r: StateResponse)
    ensures
        r == (StateResponse {
            multiplier: state.multiplier,
            total_staked: state.total_staked,
            residual: state.residual,
        }),
{
    StateResponse {
        multiplier: state.multiplier,
        total_staked: state.total_staked,
        residual: state.residual,
    }
}

/// When the unstaking amount can be withdrawn, where there is one and the
/// time is representable.
pub open spec fn unstake_time(config: &Config, stake_state: &StakeState) -> Option<Timestamp> {
    match stake_state.unstaking_begin_time {
        Some(begin_time) => if begin_time.0 + config.unstake_delay.0 <= u64::MAX {
            Some(Timestamp((begin_time.0 + config.unstake_delay.0) as u64))
        } else {
            None
        },
        None => None,
    }
}

/// The state of a staker as a query at `current_time` reports it: the
/// amounts and the dividend brought up to date, the stored multiplier as
/// it is.
pub open spec fn spec_query_stake_state(
    config: &Config,
    state: &State,
    stake_state: &StakeState,
    current_time: Timestamp,
) -> Result<StakeStateResponse, ContractError> {
    let amounts = stake_state.spec_unstaking_unstaked_amount(current_time, config.unstake_delay);
    let dividend = stake_state.spec_dividend(state.multiplier);
    if amounts is None || dividend is None {
        Err(ContractError::Overflow)
    } else {
        Ok(
            StakeStateResponse {
                staked_amount: stake_state.staked_amount,
                unstaking_amount: amounts->Some_0.0,
                unstaked_amount: amounts->Some_0.1,
                unstake_time: unstake_time(config, stake_state),
                multiplier: stake_state.multiplier,
                dividend: dividend->Some_0,
            },
        )
    }
}

/// The state of a staker at the time of the block.
pub fn query_stake_state(config: &Config, state: &State, stake_state: &StakeState, env: Env) -> (r:
    Result<StakeStateResponse, ContractError>)
    ensures
        r == spec_query_stake_state(config, state, stake_state, env.time),
{
    let (unstaking_amount, unstaked_amount) = match stake_state.unstaking_unstaked_amount(
        env.time,
        config.unstake_delay,
    ) {
        Some(amounts) => amounts,
        None => { return Err(ContractError::Overflow); },
    };
    let unstake_time = match stake_state.unstaking_begin_time {
        Some(begin_time) => match begin_time.checked_add(config.unstake_delay) {
            Ok(unstake_time) => Some(unstake_time),
            Err(_) => None,
        },
        None => None,
    };
    let dividend = match stake_state.dividend(state.multiplier) {
        Some(dividend) => dividend,
        None => { return Err(ContractError::Overflow); },
    };
    Ok(
        StakeStateResponse {
            staked_amount: stake_state.staked_amount,
            unstaking_amount,
            unstaked_amount,
            unstake_time,
            multiplier: stake_state.multiplier,
            dividend,
        },
    )
}

/// A query of the contract. `stake_state` is what is stored for the
/// address that a query for a staker names.
pub fn query(
    config: &Config,
    state: &State,
    stake_state: Option<StakeState>,
    env: Env,
    msg: QueryMsg,
) -> (r: Result<QueryResponse, ContractError>)
    ensures
        msg is Config ==> r is Ok && r->Ok_0 is Config && r->Ok_0->Config_0 == (ConfigResponse {
            base_token: config.base_token,
            stable_denom: config.stable_denom,
            unstake_delay: config.unstake_delay,
        }),
        msg is State ==> r is Ok && r->Ok_0 is State && r->Ok_0->State_0 == (StateResponse {
            multiplier: state.multiplier,
            total_staked: state.total_staked,
            residual: state.residual,
        }),
        msg is StakeState && stake_state is None ==> r is Err && r->Err_0 == (ContractError::Std {
            source: StdError::NotFound,
        }),
        msg is StakeState && stake_state is Some ==> (match spec_query_stake_state(
            config,
            state,
            &stake_state->Some_0,
            env.time,
        ) {
            Ok(response) => r is Ok && r->Ok_0 == QueryResponse::StakeState(response),
            Err(e) => r is Err && r->Err_0 == e,
        }),
{
    match msg {
        QueryMsg::Config {  } => Ok(QueryResponse::Config(query_config(config))),
        QueryMsg::State {  } => Ok(QueryResponse::State(query_state(state))),
        QueryMsg::StakeState { address } => match stake_state {
            Some(stake_state) => match query_stake_state(config, state, &stake_state, env) {
                Ok(response) => Ok(QueryResponse::StakeState(response)),
                Err(e) => Err(e),
            },
            None => Err(ContractError::Std { source: StdError::NotFound }),
        },
    }
}

/// Nothing changes on migration.
pub fn migrate(msg: MigrateMsg) -> (r: Result<Vec<CosmosMsg>, ContractError>)
    ensures
        r is Ok && r->Ok_0@.len() == 0,
{
    Ok(Vec::new())
}

} // verus!
