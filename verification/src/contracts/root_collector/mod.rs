//! The root collector: what it owes to each staker, and the calls that
//! change it.

pub mod contract;
pub mod errors;
pub mod laws;
pub mod state;
