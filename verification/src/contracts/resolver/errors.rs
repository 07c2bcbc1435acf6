//! Why a call of the resolver is refused.

use crate::errors::StdError;
use vstd::prelude::*;
use vstd::std_specs::convert::FromSpecImpl;

verus! {

#[derive(Copy, Clone, Debug, PartialEq, Eq, Structural)]
pub enum ContractError {
    Std { source: StdError },
    NameExpired,
    Unauthorized,
}

impl FromSpecImpl<StdError> for ContractError {
    open spec fn obeys_from_spec() -> bool {
        true
    }

    open spec fn from_spec(source: StdError) -> ContractError {
        ContractError::Std { source }
    }
}

impl From<StdError> for ContractError {
    fn from(source: StdError) -> ContractError {
        ContractError::Std { source }
    }
}

impl ContractError {
    /// The message of the error.
    pub fn message(&self) -> (r: &'static str)
        ensures
            r@ == (match *self {
                ContractError::Std { source: StdError::NotFound } => "StdError: not found"@,
                ContractError::Std { source: StdError::InvalidUtf8 } => "StdError: Invalid utf-8"@,
                ContractError::Std { source: StdError::Overflow } => "StdError: Overflow"@,
                ContractError::NameExpired => "NameExpired"@,
                ContractError::Unauthorized => "Unauthorized"@,
            }),
    {
        match self {
            ContractError::Std { source: StdError::NotFound } => "StdError: not found",
            ContractError::Std { source: StdError::InvalidUtf8 } => "StdError: Invalid utf-8",
            ContractError::Std { source: StdError::Overflow } => "StdError: Overflow",
            ContractError::NameExpired => "NameExpired",
            ContractError::Unauthorized => "Unauthorized",
        }
    }
}

} // verus!
