//! Harberger-tax name auction: the phases of a name and the monetary rules
//! of bidding on it, the dividend accounting of the root collector, and
//! the rule of the name resolver, each as functions over explicit state.

pub mod auction;
pub mod contracts;
pub mod errors;
pub mod host;
pub mod math;
pub mod querier;
pub mod resolver;
pub mod root_collector;
pub mod terra;
pub mod utils;
