use terranames::auction::NameStateResponse;
use terranames::contracts::resolver::contract::{
    execute, execute_set_value, instantiate, migrate, query, query_config, query_resolve,
    QueryResponse, Response,
};
use terranames::contracts::resolver::errors::ContractError;
use terranames::errors::StdError;
use terranames::host::{mock_info, Env};
use terranames::querier::{clone_name_state_response, query_name_state, AuctionQuerier};
use terranames::resolver::{
    ExecuteMsg, InstantiateMsg, MigrateMsg, QueryMsg, ResolveNameResponse,
};
use terranames::utils::Timestamp;

fn name_state(expire_time: Option<u64>) -> NameStateResponse {
    NameStateResponse {
        name_owner: Some("owner".to_string()),
        bid_owner: Some("owner".to_string()),
        controller: Some("controller".to_string()),
        rate: 100,
        begin_time: Timestamp::from_seconds(100_000),
        begin_deposit: 1_000,
        current_deposit: 965,
        counter_delay_end: Timestamp::from_seconds(110_000),
        transition_delay_end: Timestamp::from_seconds(130_000),
        bid_delay_end: Timestamp::from_seconds(2_000_000),
        expire_time: expire_time.map(Timestamp::from_seconds),
    }
}

fn answering(response: NameStateResponse) -> AuctionQuerier {
    AuctionQuerier { response: Some(response) }
}

fn at(seconds: u64) -> Env {
    Env { time: Timestamp::from_seconds(seconds) }
}

fn value() -> Option<String> {
    Some("test_value".to_string())
}

#[test]
fn set_value_until_expiry() {
    let querier = answering(name_state(Some(10_100_000)));
    let info = mock_info("controller", vec![]);
    let name = || "example".to_string();
    let res = execute_set_value(&querier, at(10_099_999), &info, name(), value());
    assert_eq!(res, Ok(Response { value: value() }));
    let res = execute_set_value(&querier, at(10_100_000), &info, name(), value());
    assert_eq!(res, Err(ContractError::NameExpired));
    let res = execute_set_value(&querier, at(u64::MAX), &info, name(), None);
    assert_eq!(res, Err(ContractError::NameExpired));
    // Without expiry the value can be set at any time.
    let querier = answering(name_state(None));
    let res = execute_set_value(&querier, at(u64::MAX), &info, name(), None);
    assert_eq!(res, Ok(Response { value: None }));
}

#[test]
fn set_value_by_controller_only() {
    let querier = answering(name_state(Some(10_100_000)));
    let name = || "example".to_string();
    for sender in ["owner", "other", ""] {
        let info = mock_info(sender, vec![]);
        let res = execute_set_value(&querier, at(123_456), &info, name(), value());
        assert_eq!(res, Err(ContractError::Unauthorized));
    }
    let querier = answering(NameStateResponse { controller: None, ..name_state(None) });
    let info = mock_info("controller", vec![]);
    let res = execute_set_value(&querier, at(123_456), &info, name(), value());
    assert_eq!(res, Err(ContractError::Unauthorized));
    // Who is not the controller learns nothing of the expiry.
    let querier = answering(name_state(Some(5)));
    let info = mock_info("other", vec![]);
    let res = execute_set_value(&querier, at(123_456), &info, name(), value());
    assert_eq!(res, Err(ContractError::Unauthorized));
}

#[test]
fn set_value_without_answer_fails() {
    let info = mock_info("controller", vec![]);
    let res = execute_set_value(&AuctionQuerier::new(), at(5), &info, "example".to_string(), value());
    assert_eq!(res, Err(ContractError::Std { source: StdError::NotFound }));
    assert_eq!(query_name_state(&AuctionQuerier::new(), "example"), Err(StdError::NotFound));
}

#[test]
fn execute_sets_value() {
    let querier = answering(name_state(None));
    let info = mock_info("controller", vec![]);
    let msg = ExecuteMsg::SetNameValue { name: "example".to_string(), value: value() };
    assert_eq!(execute(&querier, at(5), &info, msg), Ok(Response { value: value() }));
}

#[test]
fn resolve_name() {
    let querier = answering(name_state(Some(10_100_000)));
    let name = || "example".to_string();
    assert_eq!(
        query_resolve(&querier, Some(value()), name()),
        Ok(ResolveNameResponse {
            value: value(),
            expire_time: Some(Timestamp::from_seconds(10_100_000)),
        })
    );
    assert_eq!(
        query_resolve(&querier, Some(None), name()),
        Ok(ResolveNameResponse { value: None, expire_time: Some(Timestamp::from_seconds(10_100_000)) })
    );
    // Nothing was ever set for the name.
    assert_eq!(
        query_resolve(&querier, None, name()),
        Err(ContractError::Std { source: StdError::NotFound })
    );
    // The name has no owner.
    let querier = answering(NameStateResponse { name_owner: None, ..name_state(None) });
    assert_eq!(query_resolve(&querier, Some(value()), name()), Err(ContractError::NameExpired));
    assert_eq!(
        query_resolve(&AuctionQuerier::new(), Some(value()), name()),
        Err(ContractError::Std { source: StdError::NotFound })
    );
}

#[test]
fn queries() {
    let config = instantiate(InstantiateMsg { auction_contract: "auction".to_string() });
    assert_eq!(config.auction_contract, "auction");
    let querier = answering(name_state(None));
    let res = query(&config, &querier, None, QueryMsg::Config {});
    assert_eq!(res, Ok(QueryResponse::Config(query_config(&config))));
    let res = query(&config, &querier, Some(value()), QueryMsg::ResolveName { name: "example".to_string() });
    assert_eq!(
        res,
        Ok(QueryResponse::ResolveName(ResolveNameResponse { value: value(), expire_time: None }))
    );
    let res = query(&config, &querier, None, QueryMsg::ResolveName { name: "example".to_string() });
    assert_eq!(res, Err(ContractError::Std { source: StdError::NotFound }));
}

#[test]
fn resolver_copies() {
    let state = name_state(Some(5));
    assert_eq!(clone_name_state_response(&state), state);
    assert_eq!(query_name_state(&answering(state.clone()), "example"), Ok(state));
}

#[test]
fn resolver_migrate_sends_nothing() {
    assert_eq!(migrate(MigrateMsg {}), Ok(vec![]));
}
