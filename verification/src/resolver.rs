//! Messages of the resolver, which maps each name to the value that its
//! controller has set.

use crate::host::Addr;
use crate::utils::Timestamp;
use vstd::prelude::*;

verus! {

#[derive(Clone, Debug, PartialEq, Eq)]
pub struct InstantiateMsg {
    /// Auction contract handling ownership
    pub auction_contract: String,
}

#[derive(Clone, Debug, PartialEq, Eq)]
pub enum ExecuteMsg {
    SetNameValue {
        /// Name to set value for
        name: String,
        /// Value to set
        value: Option<String>,
    },
}

#[derive(Clone, Debug, PartialEq, Eq)]
pub enum QueryMsg {
    Config {  },
    ResolveName {
        /// Name to resolve value for
        name: String,
    },
}

#[derive(Copy, Clone, Debug, PartialEq, Eq, Structural)]
pub struct MigrateMsg {}

#[derive(Clone, Debug, PartialEq, Eq)]
pub struct ConfigResponse {
    /// Auction contract handling ownership
    pub auction_contract: Addr,
}

#[derive(Clone, Debug, PartialEq, Eq)]
pub struct ResolveNameResponse {
    /// Value that the name resolved to
    pub value: Option<String>,
    /// Time when the value expires
    pub expire_time: Option<Timestamp>,
}

} // verus!
