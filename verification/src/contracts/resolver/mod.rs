//! The resolver: the value that a name resolves to, and who may set it.

pub mod contract;
pub mod errors;
pub mod state;
