//! The three contracts: the name auction, the root collector that pays
//! dividends to stakers, and the name resolver.

pub mod auction;
pub mod resolver;
pub mod root_collector;
