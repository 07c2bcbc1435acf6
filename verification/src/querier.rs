//! The auction as another contract sees it: through its answer to a query
//! for the state of a name.

use crate::auction::NameStateResponse;
use crate::contracts::auction::state::clone_option_addr;
use crate::errors::StdError;
use vstd::prelude::*;

verus! {

/// The answer of the auction contract to a query for the state of a name,
/// if it has answered.
#[derive(Clone, Debug, PartialEq, Eq)]
pub struct AuctionQuerier {
    pub response: Option<NameStateResponse>,
}

impl AuctionQuerier {
    /// A querier without an answer.
    pub fn new() -> (r: AuctionQuerier)
        ensures
            r.response is None,
    {
        AuctionQuerier { response: None }
    }
}

/// A copy of the state of a name.
pub fn clone_name_state_response(response: &NameStateResponse) -> (r: NameStateResponse)
    ensures
        r == *response,
{
    NameStateResponse {
        name_owner: clone_option_addr(&response.name_owner),
        bid_owner: clone_option_addr(&response.bid_owner),
        controller: clone_option_addr(&response.controller),
        rate: response.rate,
        begin_time: response.begin_time,
        begin_deposit: response.begin_deposit,
        current_deposit: response.current_deposit,
        counter_delay_end: response.counter_delay_end,
        transition_delay_end: response.transition_delay_end,
        bid_delay_end: response.bid_delay_end,
        expire_time: response.expire_time,
    }
}

/// The state of `name` as the auction reports it.
pub open spec fn spec_query_name_state(querier: &AuctionQuerier) -> Result<
    NameStateResponse,
    StdError,
> {
    match querier.response {
        Some(response) => Ok(response),
        None => Err(StdError::NotFound),
    }
}

/// The state of `name` as the auction reports it.
pub fn query_name_state(querier: &AuctionQuerier, name: &str) -> (r: Result<
    NameStateResponse,
    StdError,
>)
    ensures
        r == spec_query_name_state(querier),
{
    match &querier.response {
        Some(response) => Ok(clone_name_state_response(response)),
        None => Err(StdError::NotFound),
    }
}

} // verus!
