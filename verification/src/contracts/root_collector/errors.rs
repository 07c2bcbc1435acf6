//! Why a call of the root collector is refused.

use crate::errors::StdError;
use cosmwasm_std::OverflowError;
use vstd::prelude::*;
use vstd::std_specs::convert::FromSpecImpl;

verus! {

#[derive(Copy, Clone, Debug, PartialEq, Eq, Structural)]
pub enum ContractError {
    Std { source: StdError },
    Overflow,
    Unauthorized,
    InsufficientTokens,
    InsufficientFunds,
}

impl FromSpecImpl<StdError> for ContractError {
    open spec fn obeys_from_spec() -> bool {
        true
    }

    open spec fn from_spec(source: StdError) -> ContractError {
        ContractError::Std { source }
    }
}

impl From<StdError> for ContractError {
    fn from(source: StdError) -> ContractError {
        ContractError::Std { source }
    }
}

impl FromSpecImpl<OverflowError> for ContractError {
    open spec fn obeys_from_spec() -> bool {
        true
    }

    open spec fn from_spec(source: OverflowError) -> ContractError {
        ContractError::Overflow
    }
}

impl From<OverflowError> for ContractError {
    fn from(source: OverflowError) -> ContractError {
        ContractError::Overflow
    }
}

impl ContractError {
    /// The message of the error.
    pub fn message(&self) -> (r: &'static str)
        ensures
            r@ == (match *self {
                ContractError::Std { source: StdError::NotFound } => "StdError: not found"@,
                ContractError::Std { source: StdError::InvalidUtf8 } => "StdError: Invalid utf-8"@,
                ContractError::Std { source: StdError::Overflow } => "StdError: Overflow"@,
                ContractError::Overflow => "Overflow"@,
                ContractError::Unauthorized => "Unauthorized"@,
                ContractError::InsufficientTokens => "Insufficient tokens"@,
                ContractError::InsufficientFunds => "Insufficient funds"@,
            }),
    {
        match self {
            ContractError::Std { source: StdError::NotFound } => "StdError: not found",
            ContractError::Std { source: StdError::InvalidUtf8 } => "StdError: Invalid utf-8",
            ContractError::Std { source: StdError::Overflow } => "StdError: Overflow",
            ContractError::Overflow => "Overflow",
            ContractError::Unauthorized => "Unauthorized",
            ContractError::InsufficientTokens => "Insufficient tokens",
            ContractError::InsufficientFunds => "Insufficient funds",
        }
    }
}

} // verus!
