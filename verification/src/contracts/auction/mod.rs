//! The name auction: one record per name, its phase at a given time, and
//! the calls that change it.

pub mod contract;
pub mod errors;
pub mod helpers;
pub mod laws;
pub mod state;
