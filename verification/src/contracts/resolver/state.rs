//! Stored state of the resolver.

use crate::host::Addr;
use vstd::prelude::*;

verus! {

#[derive(Clone, Debug, PartialEq, Eq)]
pub struct Config {
    /// Auction contract
    pub auction_contract: Addr,
}

} // verus!
