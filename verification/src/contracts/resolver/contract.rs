//! The calls of the resolver. Whether a value may be set is decided from
//! what the auction reports of the name.

use crate::auction::NameStateResponse;
use crate::contracts::resolver::errors::ContractError;
use crate::contracts::resolver::state::Config;
use crate::errors::StdError;
use crate::host::{Addr, CosmosMsg, Env, MessageInfo};
use crate::querier::{query_name_state, spec_query_name_state, AuctionQuerier};
use crate::resolver::{
    ConfigResponse, ExecuteMsg, InstantiateMsg, MigrateMsg, QueryMsg, ResolveNameResponse,
};
use crate::utils::Timestamp;
use vstd::prelude::*;

verus! {

/// What a call that succeeds hands back: the value to store under the
/// name, `None` where the name is to resolve to nothing.
#[derive(Clone, Debug, PartialEq, Eq)]
pub struct Response {
    pub value: Option<String>,
}

/// The configuration to store for the contract.
pub fn instantiate(msg: InstantiateMsg) -> (r: Config)
    ensures
        r == (Config { auction_contract: msg.auction_contract }),
{
    Config { auction_contract: msg.auction_contract }
}

/// Whether `sender` may set the value of a name in the state `name_state`
/// at `current_time`: only its controller, and only before it expires.
pub open spec fn set_value_verdict(
    name_state: NameStateResponse,
    current_time: Timestamp,
    sender: Addr,
) -> Result<(), ContractError> {
    if name_state.controller is None || name_state.controller->Some_0@ != sender@ {
        Err(ContractError::Unauthorized)
    } else if name_state.expire_time is Some && current_time.0
        >= name_state.expire_time->Some_0.0 {
        Err(ContractError::NameExpired)
    } else {
        Ok(())
    }
}

/// The setting of `value` for a name by `sender` at `current_time`.
pub open spec fn spec_execute_set_value(
    querier: &AuctionQuerier,
    current_time: Timestamp,
    sender: Addr,
    value: Option<String>,
) -> Result<Response, ContractError> {
    match spec_query_name_state(querier) {
        Err(e) => Err(ContractError::Std { source: e }),
        Ok(name_state) => match set_value_verdict(name_state, current_time, sender) {
            Err(e) => Err(e),
            Ok(_) => Ok(Response { value }),
        },
    }
}

/// Set the value of `name` to `value`, as its controller.
pub fn execute_set_value(
    querier: &AuctionQuerier,
    env: Env,
    info: &MessageInfo,
    name: String,
    value: Option<String>,
) -> (r: Result<Response, ContractError>)
    ensures
        r == spec_execute_set_value(querier, env.time, info.sender, value),
{
    let name_state = match query_name_state(querier, name.as_str()) {
        Ok(name_state) => name_state,
        Err(e) => { return Err(ContractError::Std { source: e }); },
    };

    // ensure name controller permission
    if let Some(controller) = name_state.controller {
        if info.sender != controller {
            return Err(ContractError::Unauthorized);
        }
    } else {
        return Err(ContractError::Unauthorized);
    }
    if let Some(expire_time) = name_state.expire_time {
        if env.time.value() >= expire_time.value() {
            return Err(ContractError::NameExpired);
        }
    }
    Ok(Response { value })
}

/// A call of the contract.
pub fn execute(querier: &AuctionQuerier, env: Env, info: &MessageInfo, msg: ExecuteMsg) -> (r:
    Result<Response, ContractError>)
    ensures
        r == spec_execute_set_value(
            querier,
            env.time,
            info.sender,
            msg->SetNameValue_value,
        ),
{
    match msg {
        ExecuteMsg::SetNameValue { name, value } => {
            execute_set_value(querier, env, info, name, value)
        },
    }
}

/// What a query answers.
#[derive(Clone, Debug, PartialEq, Eq)]
pub enum QueryResponse {
    Config(ConfigResponse),
    ResolveName(ResolveNameResponse),
}

/// The configuration as a query reports it.
pub fn query_config(config: &Config) -> (r: ConfigResponse)
    ensures
        r == (ConfigResponse { auction_contract: config.auction_contract }),
{
    ConfigResponse { auction_contract: config.auction_contract.clone() }
}

/// What a name resolves to, where `name_value` is what is stored under the
/// name, if anything: the value and when it expires. Fails where no value
/// was ever set and where the name has no owner.
pub open spec fn spec_query_resolve(
    querier: &AuctionQuerier,
    name_value: Option<Option<String>>,
) -> Result<ResolveNameResponse, ContractError> {
    match spec_query_name_state(querier) {
        Err(e) => Err(ContractError::Std { source: e }),
        Ok(name_state) => if name_value is None {
            Err(ContractError::Std { source: StdError::NotFound })
        } else if name_state.name_owner is None {
            Err(ContractError::NameExpired)
        } else {
            Ok(
                ResolveNameResponse {
                    value: name_value->Some_0,
                    expire_time: name_state.expire_time,
                },
            )
        },
    }
}

/// Resolve `name`, where `name_value` is what is stored under it, if
/// anything.
pub fn query_resolve(
    querier: &AuctionQuerier,
    name_value: Option<Option<String>>,
    name: String,
) -> (r: Result<ResolveNameResponse, ContractError>)
    ensures
        r == spec_query_resolve(querier, name_value),
{
    let name_state = match query_name_state(querier, name.as_str()) {
        Ok(name_state) => name_state,
        Err(e) => { return Err(ContractError::Std { source: e }); },
    };
    let name_value = match name_value {
        Some(name_value) => name_value,
        None => { return Err(ContractError::Std { source: StdError::NotFound }); },
    };
    if name_state.name_owner.is_none() {
        return Err(ContractError::NameExpired);
    }
    Ok(ResolveNameResponse { value: name_value, expire_time: name_state.expire_time })
}

/// A query of the contract. `name_value` is what is stored under the name
/// that a query to resolve names, if anything.
pub fn query(
    config: &Config,
    querier: &AuctionQuerier,
    name_value: Option<Option<String>>,
    msg: QueryMsg,
) -> (r: Result<QueryResponse, ContractError>)
    ensures
        msg is Config ==> r is Ok && r->Ok_0 == QueryResponse::Config(
            ConfigResponse { auction_contract: config.auction_contract },
        ),
        msg is ResolveName ==> (match spec_query_resolve(querier, name_value) {
            Ok(response) => r is Ok && r->Ok_0 == QueryResponse::ResolveName(response),
            Err(e) => r is Err && r->Err_0 == e,
        }),
{
    match msg {
        QueryMsg::Config {  } => Ok(QueryResponse::Config(query_config(config))),
        QueryMsg::ResolveName { name } => match query_resolve(querier, name_value, name) {
            Ok(response) => Ok(QueryResponse::ResolveName(response)),
            Err(e) => Err(e),
        },
    }
}

/// Nothing changes on migration.
pub fn migrate(msg: MigrateMsg) -> (r: Result<Vec<CosmosMsg>, StdError>)
    ensures
        r is Ok && r->Ok_0@.len() == 0,
{
    Ok(Vec::new())
}

} // verus!
