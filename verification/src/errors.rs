//! Failures that are not specific to one contract.

use vstd::prelude::*;

verus! {

/// A failure below the level of a contract's own rules.
#[derive(Copy, Clone, Debug, PartialEq, Eq, Structural)]
pub enum StdError {
    /// No state is stored under the key.
    NotFound,
    /// A stored key is not valid UTF-8.
    InvalidUtf8,
    /// An amount does not fit 128 bits.
    Overflow,
}

} // verus!
