//! Points in time and spans of time, in whole seconds.

use cosmwasm_std::{OverflowError, Uint64};
use std::ops::Add;
use vstd::prelude::*;
use vstd::std_specs::convert::FromSpecImpl;
use vstd::std_specs::ops::AddSpecImpl;

verus! {

/// Declares `cosmwasm_std::OverflowError`, the error of the checked
/// operations of `Uint64`, as a type whose values are carried through
/// and never looked into.
#[verifier::external_type_specification]
#[verifier::external_body]
pub struct ExOverflowError(OverflowError);

/// Calls `cosmwasm_std::Uint64::checked_add`: the sum when it fits 64 bits,
/// an overflow error otherwise.
#[verifier::external_body]
fn uint64_checked_add(a: u64, b: u64) -> (r: Result<u64, OverflowError>)
    ensures
        a + b <= u64::MAX ==> r is Ok && r->Ok_0 == a + b,
        a + b > u64::MAX ==> r is Err,
{
    match Uint64::new(a).checked_add(Uint64::new(b)) {
        Ok(v) => Ok(v.u64()),
        Err(e) => Err(e),
    }
}

/// Calls `cosmwasm_std::Uint64::checked_sub`: the difference when it is not
/// negative, an overflow error otherwise.
#[verifier::external_body]
fn uint64_checked_sub(a: u64, b: u64) -> (r: Result<u64, OverflowError>)
    ensures
        a >= b ==> r is Ok && r->Ok_0 == a - b,
        a < b ==> r is Err,
{
    match Uint64::new(a).checked_sub(Uint64::new(b)) {
        Ok(v) => Ok(v.u64()),
        Err(e) => Err(e),
    }
}

/// Timestamp (in seconds)
#[derive(Copy, Clone, Debug, PartialEq, Eq, Structural, PartialOrd, Ord, Hash)]
pub struct Timestamp(pub u64);

/// Timedelta (in seconds)
#[derive(Copy, Clone, Debug, PartialEq, Eq, Structural, PartialOrd, Ord, Hash)]
pub struct Timedelta(pub u64);

impl Timestamp {
    /// The value of `seconds` seconds.
    pub fn from_seconds(seconds: u64) -> (r: Timestamp)
        ensures
            r == Timestamp(seconds),
    {
        Timestamp(seconds)
    }

    /// The value of zero seconds.
    pub fn zero() -> (r: Timestamp)
        ensures
            r == Timestamp(0),
    {
        Timestamp(0)
    }

    /// The seconds.
    pub open spec fn spec_value(&self) -> u64 {
        self.0
    }

    /// The seconds.
    #[verifier::when_used_as_spec(spec_value)]
    pub fn value(&self) -> (r: u64)
        ensures
            r == self.0,
    {
        self.0
    }

    /// Whether the seconds are zero.
    pub open spec fn spec_is_zero(&self) -> bool {
        self.0 == 0
    }

    /// Whether the seconds are zero.
    #[verifier::when_used_as_spec(spec_is_zero)]
    pub fn is_zero(&self) -> (r: bool)
        ensures
            r == (self.0 == 0),
    {
        self.0 == 0
    }

    /// The timestamp `other` later, unless that is past the last
    /// representable second.
    pub fn checked_add(self, other: Timedelta) -> (r: Result<Timestamp, OverflowError>)
        ensures
            self.0 + other.0 <= u64::MAX ==> r is Ok && r->Ok_0.0 == self.0 + other.0,
            self.0 + other.0 > u64::MAX ==> r is Err,
    {
        match uint64_checked_add(self.0, other.0) {
            Ok(seconds) => Ok(Timestamp(seconds)),
            Err(e) => Err(e),
        }
    }

    /// The time from `other` to `self`, unless `other` is the later one.
    pub fn checked_sub(self, other: Timestamp) -> (r: Result<Timedelta, OverflowError>)
        ensures
            self.0 >= other.0 ==> r is Ok && r->Ok_0.0 == self.0 - other.0,
            self.0 < other.0 ==> r is Err,
    {
        match uint64_checked_sub(self.0, other.0) {
            Ok(seconds) => Ok(Timedelta(seconds)),
            Err(e) => Err(e),
        }
    }
}

impl Timedelta {
    /// The value of `seconds` seconds.
    pub fn from_seconds(seconds: u64) -> (r: Timedelta)
        ensures
            r == Timedelta(seconds),
    {
        Timedelta(seconds)
    }

    /// The value of zero seconds.
    pub fn zero() -> (r: Timedelta)
        ensures
            r == Timedelta(0),
    {
        Timedelta(0)
    }

    /// The seconds.
    pub open spec fn spec_value(&self) -> u64 {
        self.0
    }

    /// The seconds.
    #[verifier::when_used_as_spec(spec_value)]
    pub fn value(&self) -> (r: u64)
        ensures
            r == self.0,
    {
        self.0
    }

    /// Whether the seconds are zero.
    pub open spec fn spec_is_zero(&self) -> bool {
        self.0 == 0
    }

    /// Whether the seconds are zero.
    #[verifier::when_used_as_spec(spec_is_zero)]
    pub fn is_zero(&self) -> (r: bool)
        ensures
            r == (self.0 == 0),
    {
        self.0 == 0
    }
}

impl AddSpecImpl<Timedelta> for Timestamp {
    open spec fn obeys_add_spec() -> bool {
        true
    }

    open spec fn add_req(self, rhs: Timedelta) -> bool {
        self.0 + rhs.0 <= u64::MAX
    }

    open spec fn add_spec(self, rhs: Timedelta) -> Timestamp {
        Timestamp((self.0 + rhs.0) as u64)
    }
}

impl Add<Timedelta> for Timestamp {
    type Output = Timestamp;

    fn add(self, rhs: Timedelta) -> Timestamp {
        Timestamp(self.0 + rhs.0)
    }
}

impl AddSpecImpl<Timedelta> for Timedelta {
    open spec fn obeys_add_spec() -> bool {
        true
    }

    open spec fn add_req(self, rhs: Timedelta) -> bool {
        self.0 + rhs.0 <= u64::MAX
    }

    open spec fn add_spec(self, rhs: Timedelta) -> Timedelta {
        Timedelta((self.0 + rhs.0) as u64)
    }
}

impl Add<Timedelta> for Timedelta {
    type Output = Timedelta;

    fn add(self, rhs: Timedelta) -> Timedelta {
        Timedelta(self.0 + rhs.0)
    }
}

impl FromSpecImpl<Timestamp> for u64 {
    open spec fn obeys_from_spec() -> bool {
        true
    }

    open spec fn from_spec(other: Timestamp) -> u64 {
        other.0
    }
}

impl From<Timestamp> for u64 {
    fn from(other: Timestamp) -> u64 {
        other.value()
    }
}

impl FromSpecImpl<Timedelta> for u64 {
    open spec fn obeys_from_spec() -> bool {
        true
    }

    open spec fn from_spec(other: Timedelta) -> u64 {
        other.0
    }
}

impl From<Timedelta> for u64 {
    fn from(other: Timedelta) -> u64 {
        other.value()
    }
}

impl FromSpecImpl<Timedelta> for u128 {
    open spec fn obeys_from_spec() -> bool {
        true
    }

    open spec fn from_spec(other: Timedelta) -> u128 {
        other.0 as u128
    }
}

impl From<Timedelta> for u128 {
    fn from(other: Timedelta) -> u128 {
        other.value() as u128
    }
}

impl Default for Timestamp {
    fn default() -> (r: Timestamp)
        ensures
            r == Timestamp(0),
    {
        Timestamp(0)
    }
}

impl Default for Timedelta {
    fn default() -> (r: Timedelta)
        ensures
            r == Timedelta(0),
    {
        Timedelta(0)
    }
}

} // verus!
