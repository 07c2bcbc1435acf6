//! Messages of the root collector, which takes the deposits of the auction
//! and pays them out as dividends to the stakers of the base token.

use crate::host::Addr;
use crate::math::Decimal;
use crate::utils::{Timedelta, Timestamp};
use vstd::prelude::*;

verus! {

#[derive(Clone, Debug, PartialEq, Eq)]
pub struct InstantiateMsg {
    /// Base token
    pub base_token: String,
    /// Stablecoin denomination
    pub stable_denom: String,
    /// Unstake delay
    pub unstake_delay: Timedelta,
}

#[derive(Clone, Debug, PartialEq, Eq)]
pub enum QueryMsg {
    Config {  },
    State {  },
    StakeState {
        /// Address to query stake state for
        address: String,
    },
}

/// What the token contract tells the collector when tokens were sent to
/// it: who sent them, how many, and what for.
#[derive(Clone, Debug, PartialEq, Eq)]
pub struct Cw20ReceiveMsg {
    pub sender: String,
    pub amount: u128,
    pub msg: ReceiveMsg,
}

#[derive(Clone, Debug, PartialEq, Eq)]
pub enum ExecuteMsg {
    Deposit {  },
    UnstakeTokens {
        /// Amount to unstake
        amount: u128,
    },
    WithdrawTokens {
        /// Amount to withdraw
        amount: u128,
        /// Address to withdraw to
        to: Option<String>,
    },
    WithdrawDividends {
        /// Address to withdraw to
        to: Option<String>,
    },
    Receive(Cw20ReceiveMsg),
}

#[derive(Copy, Clone, Debug, PartialEq, Eq, Structural)]
pub struct MigrateMsg {}

#[derive(Clone, Debug, PartialEq, Eq)]
pub struct ConfigResponse {
    /// Base token
    pub base_token: Addr,
    /// Stablecoin denomination
    pub stable_denom: String,
    /// Unstake delay
    pub unstake_delay: Timedelta,
}

#[derive(Copy, Clone, Debug, PartialEq, Eq, Structural)]
pub struct StateResponse {
    /// Current multiplier
    pub multiplier: Decimal,
    /// Total tokens staked
    pub total_staked: u128,
    /// Residual funds
    pub residual: u128,
}

#[derive(Copy, Clone, Debug, PartialEq, Eq, Structural)]
pub struct StakeStateResponse {
    /// Staked amount
    pub staked_amount: u128,
    /// Unstaking amount
    pub unstaking_amount: u128,
    /// Unstaked amount
    pub unstaked_amount: u128,
    /// Unstake time
    pub unstake_time: Option<Timestamp>,
    /// Initial multiplier
    pub multiplier: Decimal,
    /// Dividend
    pub dividend: u128,
}

#[derive(Copy, Clone, Debug, PartialEq, Eq, Structural)]
pub enum ReceiveMsg {
    Stake {  },
}

} // verus!
