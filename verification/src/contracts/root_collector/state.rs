//! Stored state of the root collector: the running dividend per token, and
//! for each staker the tokens in each stage and the dividend owed.

use crate::host::Addr;
use crate::math::{checked_multiply_ratio, ratio, Decimal, DECIMAL_FRACTIONAL};
use crate::utils::{Timedelta, Timestamp};
use vstd::prelude::*;

verus! {

#[derive(Clone, Debug, PartialEq, Eq)]
pub struct Config {
    /// Base token
    pub base_token: Addr,
    /// Stablecoin denomination
    pub stable_denom: String,
    /// Time between unstaking tokens and being able to withdraw them
    pub unstake_delay: Timedelta,
}

#[derive(Copy, Clone, Debug, PartialEq, Eq, Structural)]
pub struct State {
    /// Current multiplier
    pub multiplier: Decimal,
    /// Total tokens staked
    pub total_staked: u128,
    /// Residual funds
    pub residual: u128,
}

#[derive(Copy, Clone, Debug, PartialEq, Eq, Structural)]
pub struct StakeState {
    /// Staked amount
    pub staked_amount: u128,
    /// Amount that has been unstaked and waits out the delay
    pub unstaking_amount: u128,
    /// Amount that can be withdrawn
    pub unstaked_amount: u128,
    /// When the unstaking amount was last added to
    pub unstaking_begin_time: Option<Timestamp>,
    /// Initial multiplier
    pub multiplier: Decimal,
    /// Pre-computed dividend
    ///
    /// This does not include dividend that has not yet been computed into state.
    pub dividend: u128,
}

impl StakeState {
    /// Dividend earned since the multiplier of this state was taken: the
    /// rise of the multiplier on each staked token, rounded down.
    pub open spec fn new_dividend(&self, global_multiplier: Decimal) -> nat {
        let rise = if global_multiplier.0 >= self.multiplier.0 {
            (global_multiplier.0 - self.multiplier.0) as nat
        } else {
            0
        };
        ratio(self.staked_amount as nat, rise, DECIMAL_FRACTIONAL as nat)
    }

    /// The full dividend, where it fits 128 bits.
    pub open spec fn spec_dividend(&self, global_multiplier: Decimal) -> Option<u128> {
        if self.dividend + self.new_dividend(global_multiplier) <= u128::MAX {
            Some((self.dividend + self.new_dividend(global_multiplier)) as u128)
        } else {
            None
        }
    }

    /// Return full dividend
    pub fn dividend(&self, global_multiplier: Decimal) -> (r: Option<u128>)
        ensures
            r == self.spec_dividend(global_multiplier),
    {
        // Compute dividend since last state update
        let dividend_per_token_numer = global_multiplier.numerator().saturating_sub(
            self.multiplier.numerator(),
        );
        match checked_multiply_ratio(
            self.staked_amount,
            dividend_per_token_numer,
            Decimal::one().denominator(),
        ) {
            Some(new_dividend) => self.dividend.checked_add(new_dividend),
            None => None,
        }
    }

    /// This state with the dividend brought up to `global_multiplier`, where
    /// the dividend fits 128 bits.
    pub open spec fn spec_update_dividend(&self, global_multiplier: Decimal) -> Option<StakeState> {
        match self.spec_dividend(global_multiplier) {
            Some(dividend) => Some(
                StakeState { dividend, multiplier: global_multiplier, ..*self },
            ),
            None => None,
        }
    }

    /// Update dividend in state
    ///
    /// Returns whether the dividend fits 128 bits; the state is left as it
    /// is where not.
    pub fn update_dividend(&mut self, global_multiplier: Decimal) -> (r: bool)
        ensures
            r == old(self).spec_update_dividend(global_multiplier) is Some,
            r ==> *final(self) == old(self).spec_update_dividend(global_multiplier)->Some_0,
            !r ==> *final(self) == *old(self),
    {
        match self.dividend(global_multiplier) {
            Some(dividend) => {
                self.dividend = dividend;
                self.multiplier = global_multiplier;
                true
            },
            None => false,
        }
    }

    /// Whether the delay of the unstaking amount is over at `current_time`.
    pub open spec fn unstaking_done(&self, current_time: Timestamp, unstake_delay: Timedelta) -> bool {
        self.unstaking_begin_time is Some && self.unstaking_begin_time->Some_0.0 + unstake_delay.0
            <= current_time.0
    }

    /// Whether the delay of the unstaking amount is over at `current_time`.
    pub fn is_unstaking_done(&self, current_time: Timestamp, unstake_delay: Timedelta) -> (r: bool)
        ensures
            r == self.unstaking_done(current_time, unstake_delay),
    {
        match self.unstaking_begin_time {
            Some(begin_time) => begin_time.value() as u128 + unstake_delay.value() as u128
                <= current_time.value() as u128,
            None => false,
        }
    }

    /// The unstaking and the unstaked amount as they are at `current_time`:
    /// once its delay is over, the unstaking amount counts as unstaked.
    pub open spec fn spec_unstaking_unstaked_amount(
        &self,
        current_time: Timestamp,
        unstake_delay: Timedelta,
    ) -> Option<(u128, u128)> {
        if self.unstaking_done(current_time, unstake_delay) {
            if self.unstaked_amount + self.unstaking_amount <= u128::MAX {
                Some((0u128, (self.unstaked_amount + self.unstaking_amount) as u128))
            } else {
                None
            }
        } else {
            Some((self.unstaking_amount, self.unstaked_amount))
        }
    }

    /// Return the unstaking and the unstaked amount at `current_time`,
    /// where they fit 128 bits.
    pub fn unstaking_unstaked_amount(&self, current_time: Timestamp, unstake_delay: Timedelta) -> (r:
        Option<(u128, u128)>)
        ensures
            r == self.spec_unstaking_unstaked_amount(current_time, unstake_delay),
    {
        if self.is_unstaking_done(current_time, unstake_delay) {
            match self.unstaked_amount.checked_add(self.unstaking_amount) {
                Some(unstaked_amount) => Some((0, unstaked_amount)),
                None => None,
            }
        } else {
            Some((self.unstaking_amount, self.unstaked_amount))
        }
    }

    /// This state at `current_time`, with an unstaking amount whose delay
    /// is over moved to the unstaked amount.
    pub open spec fn spec_update_unstaked_amount(
        &self,
        current_time: Timestamp,
        unstake_delay: Timedelta,
    ) -> Option<StakeState> {
        if self.unstaking_done(current_time, unstake_delay) {
            if self.unstaked_amount + self.unstaking_amount <= u128::MAX {
                Some(
                    StakeState {
                        unstaking_amount: 0,
                        unstaked_amount: (self.unstaked_amount + self.unstaking_amount) as u128,
                        unstaking_begin_time: None,
                        ..*self
                    },
                )
            } else {
                None
            }
        } else {
            Some(*self)
        }
    }

    /// Update the unstaked amount in state
    ///
    /// Returns whether the amounts fit 128 bits; the state is left as it
    /// is where not.
    pub fn update_unstaked_amount(&mut self, current_time: Timestamp, unstake_delay: Timedelta) -> (r:
        bool)
        ensures
            r == old(self).spec_update_unstaked_amount(current_time, unstake_delay) is Some,
            r ==> *final(self) == old(self).spec_update_unstaked_amount(
                current_time,
                unstake_delay,
            )->Some_0,
            !r ==> *final(self) == *old(self),
    {
        if self.is_unstaking_done(current_time, unstake_delay) {
            match self.unstaked_amount.checked_add(self.unstaking_amount) {
                Some(unstaked_amount) => {
                    self.unstaked_amount = unstaked_amount;
                    self.unstaking_amount = 0;
                    self.unstaking_begin_time = None;
                    true
                },
                None => false,
            }
        } else {
            true
        }
    }

    /// Whether nothing is staked, unstaking, unstaked or owed.
    pub open spec fn spec_is_empty(&self) -> bool {
        self.staked_amount == 0 && self.unstaking_amount == 0 && self.unstaked_amount == 0
            && self.dividend == 0
    }

    /// Whether nothing is staked, unstaking, unstaked or owed.
    #[verifier::when_used_as_spec(spec_is_empty)]
    pub fn is_empty(&self) -> (r: bool)
        ensures
            r == self.spec_is_empty(),
    {
        self.staked_amount == 0 && self.unstaking_amount == 0 && self.unstaked_amount == 0
            && self.dividend == 0
    }
}

/// What to keep in store for an account: nothing once its state is empty.
pub fn store_stake_state(stake_state: &StakeState) -> (r: Option<StakeState>)
    ensures
        r == (if stake_state.is_empty() {
            None
        } else {
            Some(*stake_state)
        }),
{
    if stake_state.is_empty() {
        None
    } else {
        Some(*stake_state)
    }
}

} // verus!
