use std::collections::BTreeMap;

use terranames::contracts::root_collector::contract;
use terranames::contracts::root_collector::contract::{QueryResponse, Response};
use terranames::contracts::root_collector::errors::ContractError;
use terranames::contracts::root_collector::state::{store_stake_state, Config, StakeState, State};
use terranames::host::{coins, mock_info, Coin, CosmosMsg, Env, MessageInfo};
use terranames::math::Decimal;
use terranames::root_collector::{
    ConfigResponse, Cw20ReceiveMsg, ExecuteMsg, InstantiateMsg, QueryMsg, ReceiveMsg,
    StakeStateResponse, StateResponse,
};
use terranames::terra::TaxQuerier;
use terranames::utils::{Timedelta, Timestamp};

static ABC_COIN: &str = "uabc";

fn default_init() -> InstantiateMsg {
    InstantiateMsg {
        base_token: "token_contract".into(),
        stable_denom: ABC_COIN.into(),
        unstake_delay: Timedelta::zero(),
    }
}

/// What the host keeps for the contract between calls.
struct Deps {
    config: Option<Config>,
    state: Option<State>,
    querier: TaxQuerier,
    stakes: BTreeMap<String, StakeState>,
}

struct InitResponse {
    messages: Vec<CosmosMsg>,
}

fn mock_dependencies() -> Deps {
    Deps {
        config: None,
        state: None,
        querier: TaxQuerier::new(
            Decimal::from_ratio(405u128, 100_000u128).unwrap(),
            vec![Coin { denom: "uabc".to_string(), amount: 1_500_000 }],
        ),
        stakes: BTreeMap::new(),
    }
}

fn mock_env() -> Env {
    Env { time: Timestamp::from_seconds(1_571_797_419) }
}

fn instantiate(
    deps: &mut Deps,
    _env: Env,
    _info: MessageInfo,
    msg: InstantiateMsg,
) -> Result<InitResponse, ContractError> {
    let (config, state) = contract::instantiate(msg);
    deps.config = Some(config);
    deps.state = Some(state);
    Ok(InitResponse { messages: vec![] })
}

fn execute(
    deps: &mut Deps,
    env: Env,
    info: MessageInfo,
    msg: ExecuteMsg,
) -> Result<Response, ContractError> {
    let account = match &msg {
        ExecuteMsg::Receive(wrapper) => wrapper.sender.clone(),
        _ => info.sender.clone(),
    };
    let config = deps.config.clone().expect("contract is instantiated");
    let state = deps.state.expect("contract is instantiated");
    let stake_state = deps.stakes.get(&account).copied();
    let res = contract::execute(&config, &deps.querier, state, stake_state, env, &info, msg)?;
    deps.state = Some(res.state);
    if let Some(stake_state) = &res.stake_state {
        match store_stake_state(stake_state) {
            Some(stake_state) => deps.stakes.insert(account, stake_state),
            None => deps.stakes.remove(&account),
        };
    }
    Ok(res)
}

/// Tokens are withdrawn from what was unstaked: unstake the amount first,
/// which with no unstake delay can be withdrawn at once.
fn unstake_then(
    deps: &mut Deps,
    env: Env,
    info: MessageInfo,
    msg: ExecuteMsg,
) -> Result<Response, ContractError> {
    if let ExecuteMsg::WithdrawTokens { amount, .. } = &msg {
        let unstaked = execute(
            deps,
            env,
            info.clone(),
            ExecuteMsg::UnstakeTokens { amount: *amount },
        );
        if let Err(e) = unstaked {
            assert!(matches!(
                execute(deps, env, info.clone(), msg),
                Err(ContractError::InsufficientTokens)
            ));
            return Err(e);
        }
    }
    execute(deps, env, info, msg)
}

fn query(deps: &Deps, env: Env, msg: QueryMsg) -> Result<QueryResponse, ContractError> {
    let stake_state = match &msg {
        QueryMsg::StakeState { address } => deps.stakes.get(address).copied(),
        _ => None,
    };
    let config = deps.config.clone().expect("contract is instantiated");
    let state = deps.state.expect("contract is instantiated");
    contract::query(&config, &state, stake_state, env, msg)
}

#[test]
fn root_collector_proper_initialization() {
    let mut deps = mock_dependencies();

    let msg = default_init();
    let env = mock_env();
    let info = mock_info("creator", vec![]);

    let res = instantiate(&mut deps, env, info, msg).unwrap();
    assert_eq!(res.messages.len(), 0);

    // it worked, let's query the config
    let env = mock_env();
    let res = query(&deps, env, QueryMsg::Config {}).unwrap();
    let config: ConfigResponse = match res {
        QueryResponse::Config(response) => response,
        _ => panic!("Unexpected response: {:?}", res),
    };
    assert_eq!(config.base_token.as_str(), "token_contract");
    assert_eq!(config.stable_denom, "uabc");

    let env = mock_env();
    let res = query(&deps, env, QueryMsg::State {}).unwrap();
    let state: StateResponse = match res {
        QueryResponse::State(response) => response,
        _ => panic!("Unexpected response: {:?}", res),
    };
    assert_eq!(state.multiplier, Decimal::zero());
    assert_eq!(state.residual, 0u128);
    assert_eq!(state.total_staked, 0u128);
}

#[test]
fn stake_tokens() {
    let mut deps = mock_dependencies();

    let msg = default_init();
    let env = mock_env();
    let info = mock_info("creator", vec![]);

    let res = instantiate(&mut deps, env, info, msg).unwrap();
    assert_eq!(res.messages.len(), 0);

    let stake_amount: u128 = 9_122_993;

    let env = mock_env();
    let info = mock_info("token_contract", vec![]);
    let res = execute(&mut deps, env, info, ExecuteMsg::Receive(Cw20ReceiveMsg {
        amount: stake_amount,
        sender: "staker".into(),
        msg: ReceiveMsg::Stake {},
    })).unwrap();
    assert_eq!(res.messages.len(), 0);

    let env = mock_env();
    let res = query(&deps, env, QueryMsg::StakeState {
        address: "staker".into(),
    }).unwrap();
    let stake_state: StakeStateResponse = match res {
        QueryResponse::StakeState(response) => response,
        _ => panic!("Unexpected response: {:?}", res),
    };
    assert_eq!(stake_state.staked_amount, stake_amount);
    assert_eq!(stake_state.multiplier, Decimal::zero());
    assert_eq!(stake_state.dividend, 0);

    let env = mock_env();
    let res = query(&deps, env, QueryMsg::State { }).unwrap();
    let state: StateResponse = match res {
        QueryResponse::State(response) => response,
        _ => panic!("Unexpected response: {:?}", res),
    };
    assert_eq!(state.multiplier, Decimal::zero());
    assert_eq!(state.residual, 0);
    assert_eq!(state.total_staked, stake_amount);
}

#[test]
fn deposit_funds_with_nothing_staked() {
    let mut deps = mock_dependencies();

    let msg = default_init();
    let env = mock_env();
    let info = mock_info("creator", vec![]);

    let res = instantiate(&mut deps, env, info, msg).unwrap();
    assert_eq!(res.messages.len(), 0);

    let deposit_amount = 134_010;
    let env = mock_env();
    let info = mock_info("auction", coins(deposit_amount, ABC_COIN));
    let res = execute(&mut deps, env, info, ExecuteMsg::Deposit {}).unwrap();
    assert_eq!(res.messages.len(), 0);

    // When nothing is staked, the residual should be bumped
    let env = mock_env();
    let res = query(&deps, env, QueryMsg::State {}).unwrap();
    let state: StateResponse = match res {
        QueryResponse::State(response) => response,
        _ => panic!("Unexpected response: {:?}", res),
    };
    assert_eq!(state.total_staked, 0);
    assert_eq!(state.multiplier, Decimal::zero());
    assert_eq!(state.residual, deposit_amount);
}

#[test]
fn deposit_funds_with_residual() {
    let mut deps = mock_dependencies();

    let msg = default_init();
    let env = mock_env();
    let info = mock_info("creator", vec![]);

    let res = instantiate(&mut deps, env, info, msg).unwrap();
    assert_eq!(res.messages.len(), 0);

    let deposit_amount_1 = 134_010;
    let env = mock_env();
    let info = mock_info("auction", coins(deposit_amount_1, ABC_COIN));
    let res = execute(&mut deps, env, info, ExecuteMsg::Deposit {}).unwrap();
    assert_eq!(res.messages.len(), 0);

    // When nothing is staked, the residual should be bumped
    let env = mock_env();
    let res = query(&deps, env, QueryMsg::State {}).unwrap();
    let state: StateResponse = match res {
        QueryResponse::State(response) => response,
        _ => panic!("Unexpected response: {:?}", res),
    };
    assert_eq!(state.residual, deposit_amount_1);

    // Stake tokens
    let stake_amount: u128 = 9_122_993;

    let env = mock_env();
    let info = mock_info("token_contract", vec![]);
    let res = execute(&mut deps, env, info, ExecuteMsg::Receive(Cw20ReceiveMsg {
        amount: stake_amount,
        sender: "staker".into(),
        msg: ReceiveMsg::Stake {},
    })).unwrap();
    assert_eq!(res.messages.len(), 0);

    // This deposit should trigger the release of both residual and new
    // deposits.
    let deposit_amount_2 = 54_018;
    let env = mock_env();
    let info = mock_info("auction", coins(deposit_amount_2, ABC_COIN));
    let res = execute(&mut deps, env, info, ExecuteMsg::Deposit {}).unwrap();
    assert_eq!(res.messages.len(), 0);

    // Since there is only a single staker, the full deposit is paid as dividend
    // to this account. Note: Calculation is off by one due to rounding.
    let env = mock_env();
    let res = query(&deps, env, QueryMsg::StakeState {
        address: "staker".into(),
    }).unwrap();
    let stake_state: StakeStateResponse = match res {
        QueryResponse::StakeState(response) => response,
        _ => panic!("Unexpected response: {:?}", res),
    };
    assert_eq!(stake_state.multiplier, Decimal::zero());
    assert_eq!(stake_state.dividend, deposit_amount_1 + deposit_amount_2 - 1);
}

#[test]
fn multiple_stakers() {
    let mut deps = mock_dependencies();

    let msg = default_init();
    let env = mock_env();
    let info = mock_info("creator", vec![]);

    let res = instantiate(&mut deps, env, info, msg).unwrap();
    assert_eq!(res.messages.len(), 0);

    // Staker 1 stakes tokens
    let stake_1_amount: u128 = 9_122_993;

    let env = mock_env();
    let info = mock_info("token_contract", vec![]);
    let res = execute(&mut deps, env, info, ExecuteMsg::Receive(Cw20ReceiveMsg {
        amount: stake_1_amount,
        sender: "staker_1".into(),
        msg: ReceiveMsg::Stake {},
    })).unwrap();
    assert_eq!(res.messages.len(), 0);

    let deposit_amount_1 = 134_010;
    let env = mock_env();
    let info = mock_info("auction", coins(deposit_amount_1, ABC_COIN));
    let res = execute(&mut deps, env, info, ExecuteMsg::Deposit {}).unwrap();
    assert_eq!(res.messages.len(), 0);

    // Staker 2 stakes tokens
    let stake_2_amount: u128 = 3_451_902_999_741;

    let env = mock_env();
    let info = mock_info("token_contract", vec![]);
    let res = execute(&mut deps, env, info, ExecuteMsg::Receive(Cw20ReceiveMsg {
        amount: stake_2_amount,
        sender: "staker_2".into(),
        msg: ReceiveMsg::Stake {},
    })).unwrap();
    assert_eq!(res.messages.len(), 0);

    // Check total staked amount and multiplier
    let env = mock_env();
    let res = query(&deps, env, QueryMsg::State {}).unwrap();
    let state: StateResponse = match res {
        QueryResponse::State(response) => response,
        _ => panic!("Unexpected response: {:?}", res),
    };
    assert_eq!(state.total_staked, stake_1_amount + stake_2_amount);
    assert_eq!(state.multiplier, Decimal(14689258229179831));
    assert_eq!(state.residual, 1);

    // Check that staker 1 stake has a dividend
    let env = mock_env();
    let res = query(&deps, env, QueryMsg::StakeState {
        address: "staker_1".into(),
    }).unwrap();
    let stake_state: StakeStateResponse = match res {
        QueryResponse::StakeState(response) => response,
        _ => panic!("Unexpected response: {:?}", res),
    };
    assert_eq!(stake_state.multiplier, Decimal::zero());
    assert_eq!(stake_state.dividend, deposit_amount_1 - 1);

    // Check staker 2 stake has no dividend
    let env = mock_env();
    let res = query(&deps, env, QueryMsg::StakeState {
        address: "staker_2".into(),
    }).unwrap();
    let stake_state: StakeStateResponse = match res {
        QueryResponse::StakeState(response) => response,
        _ => panic!("Unexpected response: {:?}", res),
    };
    assert_eq!(stake_state.multiplier, Decimal(14689258229179831));
    assert_eq!(stake_state.dividend, 0);

    let deposit_amount_2 = 23_810_833;
    let env = mock_env();
    let info = mock_info("auction", coins(deposit_amount_2, ABC_COIN));
    let res = execute(&mut deps, env, info, ExecuteMsg::Deposit {}).unwrap();
    assert_eq!(res.messages.len(), 0);

    // Check total staked amount and multiplier
    let env = mock_env();
    let res = query(&deps, env, QueryMsg::State {}).unwrap();
    let state: StateResponse = match res {
        QueryResponse::State(response) => response,
        _ => panic!("Unexpected response: {:?}", res),
    };
    assert_eq!(state.total_staked, stake_1_amount + stake_2_amount);
    assert_eq!(state.multiplier, Decimal(14696156097130519));
    assert_eq!(state.residual, 1);

    // Check that staker 1 stake has a slightly larger dividend from deposit 1
    // and a small portion of deposit 2.
    let env = mock_env();
    let res = query(&deps, env, QueryMsg::StakeState {
        address: "staker_1".into(),
    }).unwrap();
    let stake_state: StakeStateResponse = match res {
        QueryResponse::StakeState(response) => response,
        _ => panic!("Unexpected response: {:?}", res),
    };
    assert_eq!(stake_state.multiplier, Decimal::zero());
    assert_eq!(stake_state.dividend, 134_072);

    // Check staker 2 stake has dividend from the majority of deposit 2.
    let env = mock_env();
    let res = query(&deps, env, QueryMsg::StakeState {
        address: "staker_2".into(),
    }).unwrap();
    let stake_state: StakeStateResponse = match res {
        QueryResponse::StakeState(response) => response,
        _ => panic!("Unexpected response: {:?}", res),
    };
    assert_eq!(stake_state.multiplier, Decimal(14689258229179831));
    assert_eq!(stake_state.dividend, 23_810_771);
}

#[test]
fn withdraw_tokens() {
    let mut deps = mock_dependencies();

    let msg = default_init();
    let env = mock_env();
    let info = mock_info("creator", vec![]);

    let res = instantiate(&mut deps, env, info, msg).unwrap();
    assert_eq!(res.messages.len(), 0);

    // Staker 1 stakes tokens
    let stake_1_amount: u128 = 9_122_993;
    let env = mock_env();
    let info = mock_info("token_contract", vec![]);
    let res = execute(&mut deps, env, info, ExecuteMsg::Receive(Cw20ReceiveMsg {
        amount: stake_1_amount,
        sender: "staker_1".into(),
        msg: ReceiveMsg::Stake {},
    })).unwrap();
    assert_eq!(res.messages.len(), 0);

    let deposit_amount_1 = 134_010;
    let env = mock_env();
    let info = mock_info("auction", coins(deposit_amount_1, ABC_COIN));
    let res = execute(&mut deps, env, info, ExecuteMsg::Deposit {}).unwrap();
    assert_eq!(res.messages.len(), 0);

    // Staker 2 stakes tokens
    let stake_2_amount: u128 = 3_451_902_999_741;
    let env = mock_env();
    let info = mock_info("token_contract", vec![]);
    let res = execute(&mut deps, env, info, ExecuteMsg::Receive(Cw20ReceiveMsg {
        amount: stake_2_amount,
        sender: "staker_2".into(),
        msg: ReceiveMsg::Stake {},
    })).unwrap();
    assert_eq!(res.messages.len(), 0);

    let deposit_amount_2 = 23_810_833;
    let env = mock_env();
    let info = mock_info("auction", coins(deposit_amount_2, ABC_COIN));
    let res = execute(&mut deps, env, info, ExecuteMsg::Deposit {}).unwrap();
    assert_eq!(res.messages.len(), 0);

    // Staker 1 partial withdrawal
    let stake_withdrawal_1: u128 = 3_009_852;
    let env = mock_env();
    let info = mock_info("staker_1", vec![]);
    let res = unstake_then(&mut deps, env, info, ExecuteMsg::WithdrawTokens {
        amount: stake_withdrawal_1,
        to: None,
    }).unwrap();
    assert_eq!(res.messages.len(), 1);

    // Check send token message
    let send_token_msg = &res.messages[0];
    match send_token_msg {
        CosmosMsg::TokenTransfer { contract_addr, recipient, amount } => {
            assert_eq!(contract_addr.as_str(), "token_contract");
            assert_eq!(recipient.as_str(), "staker_1");
            assert_eq!(*amount, stake_withdrawal_1);
        },
        _ => panic!("Unexpected message type: {:?}", send_token_msg),
    }

    // Check total staked amount
    let env = mock_env();
    let res = query(&deps, env, QueryMsg::State {}).unwrap();
    let state: StateResponse = match res {
        QueryResponse::State(response) => response,
        _ => panic!("Unexpected response: {:?}", res),
    };
    assert_eq!(state.total_staked, stake_1_amount + stake_2_amount - stake_withdrawal_1);

    // Check that staker 1 stake has a calculated dividend and the correct
    // number of staked tokens.
    let env = mock_env();
    let res = query(&deps, env, QueryMsg::StakeState {
        address: "staker_1".into(),
    }).unwrap();
    let stake_state: StakeStateResponse = match res {
        QueryResponse::StakeState(response) => response,
        _ => panic!("Unexpected response: {:?}", res),
    };
    assert_eq!(stake_state.staked_amount, stake_1_amount - stake_withdrawal_1);
    assert_eq!(stake_state.multiplier, Decimal(14696156097130519));
    assert_eq!(stake_state.dividend, 134_072);

    // Staker 1 full withdrawal
    let stake_withdrawal_2: u128 = stake_1_amount - stake_withdrawal_1;
    let env = mock_env();
    let info = mock_info("staker_1", vec![]);
    let res = unstake_then(&mut deps, env, info, ExecuteMsg::WithdrawTokens {
        amount: stake_withdrawal_2,
        to: None,
    }).unwrap();
    assert_eq!(res.messages.len(), 1);

    // Check send token message
    let send_token_msg = &res.messages[0];
    match send_token_msg {
        CosmosMsg::TokenTransfer { contract_addr, recipient, amount } => {
            assert_eq!(contract_addr.as_str(), "token_contract");
            assert_eq!(recipient.as_str(), "staker_1");
            assert_eq!(*amount, stake_withdrawal_2);
        },
        _ => panic!("Unexpected message type: {:?}", send_token_msg),
    }

    // Check total staked amount
    let env = mock_env();
    let res = query(&deps, env, QueryMsg::State {}).unwrap();
    let state: StateResponse = match res {
        QueryResponse::State(response) => response,
        _ => panic!("Unexpected response: {:?}", res),
    };
    assert_eq!(state.total_staked, stake_2_amount);

    // Check that staker 1 stake has a calculated dividend and the correct
    // number of staked tokens.
    let env = mock_env();
    let res = query(&deps, env, QueryMsg::StakeState {
        address: "staker_1".into(),
    }).unwrap();
    let stake_state: StakeStateResponse = match res {
        QueryResponse::StakeState(response) => response,
        _ => panic!("Unexpected response: {:?}", res),
    };
    assert_eq!(stake_state.staked_amount, 0);
    assert_eq!(stake_state.multiplier, Decimal(14696156097130519));
    assert_eq!(stake_state.dividend, 134_072);
}

#[test]
fn withdraw_tokens_to_address() {
    let mut deps = mock_dependencies();

    let msg = default_init();
    let env = mock_env();
    let info = mock_info("creator", vec![]);

    let res = instantiate(&mut deps, env, info, msg).unwrap();
    assert_eq!(res.messages.len(), 0);

    // Staker 1 stakes tokens
    let stake_1_amount: u128 = 9_122_993;
    let env = mock_env();
    let info = mock_info("token_contract", vec![]);
    let res = execute(&mut deps, env, info, ExecuteMsg::Receive(Cw20ReceiveMsg {
        amount: stake_1_amount,
        sender: "staker_1".into(),
        msg: ReceiveMsg::Stake {},
    })).unwrap();
    assert_eq!(res.messages.len(), 0);

    let deposit_amount_1 = 134_010;
    let env = mock_env();
    let info = mock_info("auction", coins(deposit_amount_1, ABC_COIN));
    let res = execute(&mut deps, env, info, ExecuteMsg::Deposit {}).unwrap();
    assert_eq!(res.messages.len(), 0);

    // Staker partial withdrawal to address
    let stake_withdrawal_1: u128 = 3_009_852;
    let env = mock_env();
    let info = mock_info("staker_1", vec![]);
    let res = unstake_then(&mut deps, env, info, ExecuteMsg::WithdrawTokens {
        amount: stake_withdrawal_1,
        to: Some("recipient".into()),
    }).unwrap();
    assert_eq!(res.messages.len(), 1);

    // Check send token message
    let send_token_msg = &res.messages[0];
    match send_token_msg {
        CosmosMsg::TokenTransfer { contract_addr, recipient, amount } => {
            assert_eq!(contract_addr.as_str(), "token_contract");
            assert_eq!(recipient.as_str(), "recipient");
            assert_eq!(*amount, stake_withdrawal_1);
        },
        _ => panic!("Unexpected message type: {:?}", send_token_msg),
    }
}

#[test]
fn withdraw_tokens_then_restake() {
    let mut deps = mock_dependencies();

    let msg = default_init();
    let env = mock_env();
    let info = mock_info("creator", vec![]);

    let res = instantiate(&mut deps, env, info, msg).unwrap();
    assert_eq!(res.messages.len(), 0);

    // Staker 1 stakes tokens
    let stake_1_amount: u128 = 9_122_993;
    let env = mock_env();
    let info = mock_info("token_contract", vec![]);
    let res = execute(&mut deps, env, info, ExecuteMsg::Receive(Cw20ReceiveMsg {
        amount: stake_1_amount,
        sender: "staker_1".into(),
        msg: ReceiveMsg::Stake {},
    })).unwrap();
    assert_eq!(res.messages.len(), 0);

    let deposit_amount_1 = 134_010;
    let env = mock_env();
    let info = mock_info("auction", coins(deposit_amount_1, ABC_COIN));
    let res = execute(&mut deps, env, info, ExecuteMsg::Deposit {}).unwrap();
    assert_eq!(res.messages.len(), 0);

    // Staker 2 stakes tokens
    let stake_2_amount: u128 = 3_451_902_999_741;
    let env = mock_env();
    let info = mock_info("token_contract", vec![]);
    let res = execute(&mut deps, env, info, ExecuteMsg::Receive(Cw20ReceiveMsg {
        amount: stake_2_amount,
        sender: "staker_2".into(),
        msg: ReceiveMsg::Stake {},
    })).unwrap();
    assert_eq!(res.messages.len(), 0);

    // Staker 1 withdraws tokens
    let env = mock_env();
    let info = mock_info("staker_1", vec![]);
    let res = unstake_then(&mut deps, env, info, ExecuteMsg::WithdrawTokens {
        amount: stake_1_amount,
        to: None
    }).unwrap();
    assert_eq!(res.messages.len(), 1);

    // Staker 1 withdraws dividend
    let env = mock_env();
    let info = mock_info("staker_1", vec![]);
    let res = execute(&mut deps, env, info, ExecuteMsg::WithdrawDividends {
        to: None
    }).unwrap();
    assert_eq!(res.messages.len(), 1);

    let deposit_amount_2 = 23_810_833;
    let env = mock_env();
    let info = mock_info("auction", coins(deposit_amount_2, ABC_COIN));
    let res = execute(&mut deps, env, info, ExecuteMsg::Deposit {}).unwrap();
    assert_eq!(res.messages.len(), 0);

    // Staker 1 restakes
    let stake_3_amount: u128 = 12_558_800;
    let env = mock_env();
    let info = mock_info("token_contract", vec![]);
    let res = execute(&mut deps, env, info, ExecuteMsg::Receive(Cw20ReceiveMsg {
        amount: stake_3_amount,
        sender: "staker_1".into(),
        msg: ReceiveMsg::Stake {},
    })).unwrap();
    assert_eq!(res.messages.len(), 0);

    // Check that staker 1 stake has a calculated dividend and the correct
    // number of staked tokens.
    let env = mock_env();
    let res = query(&deps, env, QueryMsg::StakeState {
        address: "staker_1".into(),
    }).unwrap();
    let stake_state: StakeStateResponse = match res {
        QueryResponse::StakeState(response) => response,
        _ => panic!("Unexpected response: {:?}", res),
    };
    assert_eq!(stake_state.staked_amount, stake_3_amount);
    assert_eq!(stake_state.dividend, 0);
}

#[test]
fn withdraw_tokens_fails_for_new_address() {
    let mut deps = mock_dependencies();

    let msg = default_init();
    let env = mock_env();
    let info = mock_info("creator", vec![]);

    let res = instantiate(&mut deps, env, info, msg).unwrap();
    assert_eq!(res.messages.len(), 0);

    // Staker 1 stakes tokens
    let stake_1_amount: u128 = 9_122_993;
    let env = mock_env();
    let info = mock_info("token_contract", vec![]);
    let res = execute(&mut deps, env, info, ExecuteMsg::Receive(Cw20ReceiveMsg {
        amount: stake_1_amount,
        sender: "staker_1".into(),
        msg: ReceiveMsg::Stake {},
    })).unwrap();
    assert_eq!(res.messages.len(), 0);

    let deposit_amount_1 = 134_010;
    let env = mock_env();
    let info = mock_info("auction", coins(deposit_amount_1, ABC_COIN));
    let res = execute(&mut deps, env, info, ExecuteMsg::Deposit {}).unwrap();
    assert_eq!(res.messages.len(), 0);

    // Staker 2 withdraws tokens
    let stake_withdrawal_1: u128 = 3_009_852;
    let env = mock_env();
    let info = mock_info("staker_2", vec![]);
    let res = unstake_then(&mut deps, env, info, ExecuteMsg::WithdrawTokens {
        amount: stake_withdrawal_1,
        to: None
    });
    assert!(matches!(res, Err(ContractError::InsufficientTokens { .. })));
}

#[test]
fn withdraw_tokens_fails_if_too_few() {
    let mut deps = mock_dependencies();

    let msg = default_init();
    let env = mock_env();
    let info = mock_info("creator", vec![]);

    let res = instantiate(&mut deps, env, info, msg).unwrap();
    assert_eq!(res.messages.len(), 0);

    // Staker 1 stakes tokens
    let stake_1_amount: u128 = 9_122_993;
    let env = mock_env();
    let info = mock_info("token_contract", vec![]);
    let res = execute(&mut deps, env, info, ExecuteMsg::Receive(Cw20ReceiveMsg {
        amount: stake_1_amount,
        sender: "staker_1".into(),
        msg: ReceiveMsg::Stake {},
    })).unwrap();
    assert_eq!(res.messages.len(), 0);

    let deposit_amount_1 = 134_010;
    let env = mock_env();
    let info = mock_info("auction", coins(deposit_amount_1, ABC_COIN));
    let res = execute(&mut deps, env, info, ExecuteMsg::Deposit {}).unwrap();
    assert_eq!(res.messages.len(), 0);

    // Staker 1 withdraws tokens
    let stake_withdrawal_1: u128 = 10_009_852;
    let env = mock_env();
    let info = mock_info("staker_1", vec![]);
    let res = unstake_then(&mut deps, env, info, ExecuteMsg::WithdrawTokens {
        amount: stake_withdrawal_1,
        to: None
    });
    assert!(matches!(res, Err(ContractError::InsufficientTokens { .. })));
}

#[test]
fn withdraw_tokens_fails_if_already_withdrawn() {
    let mut deps = mock_dependencies();

    let msg = default_init();
    let env = mock_env();
    let info = mock_info("creator", vec![]);

    let res = instantiate(&mut deps, env, info, msg).unwrap();
    assert_eq!(res.messages.len(), 0);

    // Staker 1 stakes tokens
    let stake_1_amount: u128 = 9_122_993;
    let env = mock_env();
    let info = mock_info("token_contract", vec![]);
    let res = execute(&mut deps, env, info, ExecuteMsg::Receive(Cw20ReceiveMsg {
        amount: stake_1_amount,
        sender: "staker_1".into(),
        msg: ReceiveMsg::Stake {},
    })).unwrap();
    assert_eq!(res.messages.len(), 0);

    let deposit_amount_1 = 134_010;
    let env = mock_env();
    let info = mock_info("auction", coins(deposit_amount_1, ABC_COIN));
    let res = execute(&mut deps, env, info, ExecuteMsg::Deposit {}).unwrap();
    assert_eq!(res.messages.len(), 0);

    // Staker 2 stakes tokens
    let stake_2_amount: u128 = 3_451_902_999_741;
    let env = mock_env();
    let info = mock_info("token_contract", vec![]);
    let res = execute(&mut deps, env, info, ExecuteMsg::Receive(Cw20ReceiveMsg {
        amount: stake_2_amount,
        sender: "staker_2".into(),
        msg: ReceiveMsg::Stake {},
    })).unwrap();
    assert_eq!(res.messages.len(), 0);

    // Staker 1 withdraws tokens
    let env = mock_env();
    let info = mock_info("staker_1", vec![]);
    let res = unstake_then(&mut deps, env, info, ExecuteMsg::WithdrawTokens {
        amount: stake_1_amount,
        to: None
    }).unwrap();
    assert_eq!(res.messages.len(), 1);

    // Staker 1 tries to withdraw more tokens
    let env = mock_env();
    let info = mock_info("staker_1", vec![]);
    let res = unstake_then(&mut deps, env, info, ExecuteMsg::WithdrawTokens {
        amount: stake_1_amount,
        to: None
    });
    assert!(matches!(res, Err(ContractError::InsufficientTokens { .. })));
}

#[test]
fn withdraw_dividends() {
    let mut deps = mock_dependencies();

    let msg = default_init();
    let env = mock_env();
    let info = mock_info("creator", vec![]);

    let res = instantiate(&mut deps, env, info, msg).unwrap();
    assert_eq!(res.messages.len(), 0);

    // Staker 1 stakes tokens
    let stake_1_amount: u128 = 9_122_993;
    let env = mock_env();
    let info = mock_info("token_contract", vec![]);
    let res = execute(&mut deps, env, info, ExecuteMsg::Receive(Cw20ReceiveMsg {
        amount: stake_1_amount,
        sender: "staker_1".into(),
        msg: ReceiveMsg::Stake {},
    })).unwrap();
    assert_eq!(res.messages.len(), 0);

    let deposit_amount_1 = 134_010;
    let env = mock_env();
    let info = mock_info("auction", coins(deposit_amount_1, ABC_COIN));
    let res = execute(&mut deps, env, info, ExecuteMsg::Deposit {}).unwrap();
    assert_eq!(res.messages.len(), 0);

    // Staker 2 stakes tokens
    let stake_2_amount: u128 = 3_451_902_999_741;
    let env = mock_env();
    let info = mock_info("token_contract", vec![]);
    let res = execute(&mut deps, env, info, ExecuteMsg::Receive(Cw20ReceiveMsg {
        amount: stake_2_amount,
        sender: "staker_2".into(),
        msg: ReceiveMsg::Stake {},
    })).unwrap();
    assert_eq!(res.messages.len(), 0);

    let deposit_amount_2 = 23_810_833;
    let env = mock_env();
    let info = mock_info("auction", coins(deposit_amount_2, ABC_COIN));
    let res = execute(&mut deps, env, info, ExecuteMsg::Deposit {}).unwrap();
    assert_eq!(res.messages.len(), 0);

    // Staker 1 withdraws dividends
    let env = mock_env();
    let info = mock_info("staker_1", vec![]);
    let res = execute(&mut deps, env, info, ExecuteMsg::WithdrawDividends {
        to: None,
    }).unwrap();
    assert_eq!(res.messages.len(), 1);

    let expected_dividend = 134_072;
    let expected_dividend_tax = 541;

    // Check send funds message
    let send_funds_msg = &res.messages[0];
    match send_funds_msg {
        CosmosMsg::BankSend { to_address, amount } => {
            assert_eq!(to_address.as_str(), "staker_1");
            assert_eq!(vec![amount.clone()], coins(expected_dividend - expected_dividend_tax, ABC_COIN));
        },
        _ => panic!("Unexpected message type: {:?}", send_funds_msg),
    }

    // Check total staked amount
    let env = mock_env();
    let res = query(&deps, env, QueryMsg::State {}).unwrap();
    let state: StateResponse = match res {
        QueryResponse::State(response) => response,
        _ => panic!("Unexpected response: {:?}", res),
    };
    assert_eq!(state.total_staked, stake_1_amount + stake_2_amount);

    // Check that staker 1 stake has a calculated dividend and the correct
    // number of staked tokens.
    let env = mock_env();
    let res = query(&deps, env, QueryMsg::StakeState {
        address: "staker_1".into(),
    }).unwrap();
    let stake_state: StakeStateResponse = match res {
        QueryResponse::StakeState(response) => response,
        _ => panic!("Unexpected response: {:?}", res),
    };
    assert_eq!(stake_state.staked_amount, stake_1_amount);
    assert_eq!(stake_state.multiplier, Decimal(14696156097130519));
    assert_eq!(stake_state.dividend, 0);
}

#[test]
fn withdraw_dividends_to_address() {
    let mut deps = mock_dependencies();

    let msg = default_init();
    let env = mock_env();
    let info = mock_info("creator", vec![]);

    let res = instantiate(&mut deps, env, info, msg).unwrap();
    assert_eq!(res.messages.len(), 0);

    // Staker 1 stakes tokens
    let stake_1_amount: u128 = 9_122_993;
    let env = mock_env();
    let info = mock_info("token_contract", vec![]);
    let res = execute(&mut deps, env, info, ExecuteMsg::Receive(Cw20ReceiveMsg {
        amount: stake_1_amount,
        sender: "staker_1".into(),
        msg: ReceiveMsg::Stake {},
    })).unwrap();
    assert_eq!(res.messages.len(), 0);

    let deposit_amount_1 = 134_010;
    let env = mock_env();
    let info = mock_info("auction", coins(deposit_amount_1, ABC_COIN));
    let res = execute(&mut deps, env, info, ExecuteMsg::Deposit {}).unwrap();
    assert_eq!(res.messages.len(), 0);

    // Staker 1 withdraws dividends
    let env = mock_env();
    let info = mock_info("staker_1", vec![]);
    let res = execute(&mut deps, env, info, ExecuteMsg::WithdrawDividends {
        to: Some("recipient".into()),
    }).unwrap();
    assert_eq!(res.messages.len(), 1);

    let expected_dividend = 134_010;
    let expected_dividend_tax = 542;

    // Check send funds message
    let send_funds_msg = &res.messages[0];
    match send_funds_msg {
        CosmosMsg::BankSend { to_address, amount } => {
            assert_eq!(to_address.as_str(), "recipient");
            assert_eq!(vec![amount.clone()], coins(expected_dividend - expected_dividend_tax, ABC_COIN));
        },
        _ => panic!("Unexpected message type: {:?}", send_funds_msg),
    }
}

#[test]
fn withdraw_dividends_fails_for_new_address() {
    let mut deps = mock_dependencies();

    let msg = default_init();
    let env = mock_env();
    let info = mock_info("creator", vec![]);

    let res = instantiate(&mut deps, env, info, msg).unwrap();
    assert_eq!(res.messages.len(), 0);

    // Staker 1 stakes tokens
    let stake_1_amount: u128 = 9_122_993;
    let env = mock_env();
    let info = mock_info("token_contract", vec![]);
    let res = execute(&mut deps, env, info, ExecuteMsg::Receive(Cw20ReceiveMsg {
        amount: stake_1_amount,
        sender: "staker_1".into(),
        msg: ReceiveMsg::Stake {},
    })).unwrap();
    assert_eq!(res.messages.len(), 0);

    let deposit_amount_1 = 134_010;
    let env = mock_env();
    let info = mock_info("auction", coins(deposit_amount_1, ABC_COIN));
    let res = execute(&mut deps, env, info, ExecuteMsg::Deposit {}).unwrap();
    assert_eq!(res.messages.len(), 0);

    // Staker 2 withdraws
    let env = mock_env();
    let info = mock_info("staker_2", vec![]);
    let res = execute(&mut deps, env, info, ExecuteMsg::WithdrawDividends {
        to: None,
    });
    assert!(matches!(res, Err(ContractError::InsufficientFunds { .. })));
}

#[test]
fn withdraw_dividends_fails_for_withdraw_zero() {
    let mut deps = mock_dependencies();

    let msg = default_init();
    let env = mock_env();
    let info = mock_info("creator", vec![]);

    let res = instantiate(&mut deps, env, info, msg).unwrap();
    assert_eq!(res.messages.len(), 0);

    // Staker 1 stakes tokens
    let stake_1_amount: u128 = 9_122_993;
    let env = mock_env();
    let info = mock_info("token_contract", vec![]);
    let res = execute(&mut deps, env, info, ExecuteMsg::Receive(Cw20ReceiveMsg {
        amount: stake_1_amount,
        sender: "staker_1".into(),
        msg: ReceiveMsg::Stake {},
    })).unwrap();
    assert_eq!(res.messages.len(), 0);

    let deposit_amount_1 = 134_010;
    let env = mock_env();
    let info = mock_info("auction", coins(deposit_amount_1, ABC_COIN));
    let res = execute(&mut deps, env, info, ExecuteMsg::Deposit {}).unwrap();
    assert_eq!(res.messages.len(), 0);

    // Staker 2 stakes tokens
    let stake_2_amount: u128 = 3_451_902_999_741;
    let env = mock_env();
    let info = mock_info("token_contract", vec![]);
    let res = execute(&mut deps, env, info, ExecuteMsg::Receive(Cw20ReceiveMsg {
        amount: stake_2_amount,
        sender: "staker_2".into(),
        msg: ReceiveMsg::Stake {},
    })).unwrap();
    assert_eq!(res.messages.len(), 0);

    // Staker 2 withdraws dividends
    let env = mock_env();
    let info = mock_info("staker_2", vec![]);
    let res = execute(&mut deps, env, info, ExecuteMsg::WithdrawDividends {
        to: None,
    });
    assert!(matches!(res, Err(ContractError::InsufficientFunds { .. })));
}
