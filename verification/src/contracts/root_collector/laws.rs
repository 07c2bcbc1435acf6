//! What holds of the root collector whatever the state, the staker and the
//! call.

use crate::contracts::root_collector::contract::{
    deposit_per_stake, distributed, lemma_distributed_at_most_pool, spec_deposit, spec_execute,
    spec_unstake_tokens, spec_withdraw_tokens,
};
use crate::contracts::root_collector::errors::ContractError;
use crate::contracts::root_collector::state::{Config, StakeState, State};
use crate::host::Addr;
use crate::math::{ratio, Decimal, DECIMAL_FRACTIONAL};
use crate::root_collector::ExecuteMsg;
use crate::terra::TaxQuerier;
use crate::utils::Timestamp;
use vstd::arithmetic::div_mod::{lemma_fundamental_div_mod, lemma_fundamental_div_mod_converse};
use vstd::prelude::*;

verus! {

/// A deposit never lowers the multiplier, and never changes how much is
/// staked.
pub proof fn lemma_deposit_never_lowers_multiplier(state: State, attached: u128)
    requires
        spec_deposit(state, attached) is Ok,
    ensures
        spec_deposit(state, attached)->Ok_0.multiplier.0 >= state.multiplier.0,
        spec_deposit(state, attached)->Ok_0.total_staked == state.total_staked,
{
}

/// Tokens that were unstaked can be withdrawn once the unstake delay is
/// over: at any time from then on the withdrawal of as many succeeds, as
/// long as what the staker has unstaking and unstaked fits 128 bits
/// together.
pub proof fn lemma_unstaked_tokens_can_be_withdrawn(
    config: &Config,
    state: State,
    stake_state: Option<StakeState>,
    unstake_time: Timestamp,
    amount: u128,
    withdraw_time: Timestamp,
)
    requires
        spec_unstake_tokens(config, state, stake_state, unstake_time, amount) is Ok,
        spec_unstake_tokens(config, state, stake_state, unstake_time, amount)->Ok_0.1.unstaking_amount
            + spec_unstake_tokens(
            config,
            state,
            stake_state,
            unstake_time,
            amount,
        )->Ok_0.1.unstaked_amount <= u128::MAX,
        withdraw_time.0 >= unstake_time.0 + config.unstake_delay.0,
    ensures
        ({
            let unstaked = spec_unstake_tokens(
                config,
                state,
                stake_state,
                unstake_time,
                amount,
            )->Ok_0.1;
            let withdrawn = spec_withdraw_tokens(config, Some(unstaked), withdraw_time, amount);
            &&& withdrawn is Ok
            &&& withdrawn->Ok_0.unstaked_amount == unstaked.unstaked_amount
                + unstaked.unstaking_amount - amount
            &&& withdrawn->Ok_0.unstaking_amount == 0
            &&& withdrawn->Ok_0.staked_amount == unstaked.staked_amount
        }),
{
}

/// Tokens that were unstaked cannot be withdrawn before the unstake delay
/// is over: until then the withdrawal of as many fails for want of
/// tokens, unless the staker had as many unstaked before.
pub proof fn lemma_unstaked_tokens_wait_out_delay(
    config: &Config,
    state: State,
    stake_state: Option<StakeState>,
    unstake_time: Timestamp,
    amount: u128,
    withdraw_time: Timestamp,
)
    requires
        spec_unstake_tokens(config, state, stake_state, unstake_time, amount) is Ok,
        spec_unstake_tokens(
            config,
            state,
            stake_state,
            unstake_time,
            amount,
        )->Ok_0.1.unstaked_amount < amount,
        withdraw_time.0 < unstake_time.0 + config.unstake_delay.0,
    ensures
        spec_withdraw_tokens(
            config,
            Some(spec_unstake_tokens(config, state, stake_state, unstake_time, amount)->Ok_0.1),
            withdraw_time,
            amount,
        ) == Err::<StakeState, ContractError>(ContractError::InsufficientTokens),
{
}

/// Rounding two shares down apart loses at most one unit against rounding
/// them down together, and never gains.
pub proof fn lemma_split_shares(x: nat, y: nat, rise: nat)
    ensures
        ratio(x, rise, DECIMAL_FRACTIONAL as nat) + ratio(y, rise, DECIMAL_FRACTIONAL as nat)
            <= ratio(x + y, rise, DECIMAL_FRACTIONAL as nat),
        ratio(x + y, rise, DECIMAL_FRACTIONAL as nat) <= ratio(x, rise, DECIMAL_FRACTIONAL as nat)
            + ratio(y, rise, DECIMAL_FRACTIONAL as nat) + 1,
{
    let f = DECIMAL_FRACTIONAL as int;
    let a = (x * rise) as int;
    let b = (y * rise) as int;
    assert((x + y) * rise == a + b) by (nonlinear_arith)
        requires
            a == x * rise,
            b == y * rise,
    ;
    lemma_fundamental_div_mod(a, f);
    lemma_fundamental_div_mod(b, f);
    let rest = a % f + b % f;
    if rest < f {
        assert(a + b == (a / f + b / f) * f + rest) by (nonlinear_arith)
            requires
                a == f * (a / f) + a % f,
                b == f * (b / f) + b % f,
                rest == a % f + b % f,
        ;
        lemma_fundamental_div_mod_converse(a + b, f, a / f + b / f, rest);
    } else {
        assert(a + b == (a / f + b / f + 1) * f + (rest - f)) by (nonlinear_arith)
            requires
                a == f * (a / f) + a % f,
                b == f * (b / f) + b % f,
                rest == a % f + b % f,
        ;
        lemma_fundamental_div_mod_converse(a + b, f, a / f + b / f + 1, rest - f);
    }
}

/// A deposit is shared fairly between two stakers who hold all that is
/// staked: what the two earn and what is added to the residual make up
/// the deposit, but for at most one unit lost to rounding; and their
/// earnings are in the proportion of their stakes, each to within what
/// rounding down one earning can take from it.
pub proof fn lemma_dividend_fairness(state: State, x: StakeState, y: StakeState, attached: u128)
    requires
        state.total_staked == x.staked_amount + y.staked_amount,
        state.total_staked > 0,
        x.multiplier == state.multiplier,
        y.multiplier == state.multiplier,
        spec_deposit(state, attached) is Ok,
    ensures
        ({
            let after = spec_deposit(state, attached)->Ok_0;
            let earned_x = x.new_dividend(after.multiplier);
            let earned_y = y.new_dividend(after.multiplier);
            &&& attached - 1 <= earned_x + earned_y + after.residual - state.residual <= attached
            &&& earned_x * y.staked_amount <= earned_y * x.staked_amount + x.staked_amount
            &&& earned_y * x.staked_amount <= earned_x * y.staked_amount + y.staked_amount
        }),
{
    let f = DECIMAL_FRACTIONAL as int;
    let after = spec_deposit(state, attached)->Ok_0;
    let pool = (attached + state.residual) as nat;
    let rise = deposit_per_stake(pool, state.total_staked as nat);
    assert(after.multiplier.0 - state.multiplier.0 == rise);
    let xs = x.staked_amount as int;
    let ys = y.staked_amount as int;
    let earned_x = x.new_dividend(after.multiplier) as int;
    let earned_y = y.new_dividend(after.multiplier) as int;
    assert(earned_x == ratio(xs as nat, rise, f as nat));
    assert(earned_y == ratio(ys as nat, rise, f as nat));
    lemma_split_shares(xs as nat, ys as nat, rise);
    lemma_distributed_at_most_pool(pool, state.total_staked as nat);
    assert(after.residual == pool - distributed(state.total_staked as nat, rise));
    lemma_fundamental_div_mod(xs * rise, f);
    lemma_fundamental_div_mod(ys * rise, f);
    assert(earned_x * ys <= earned_y * xs + xs && earned_y * xs <= earned_x * ys + ys)
        by (nonlinear_arith)
        requires
            xs * rise == f * earned_x + (xs * rise) % f,
            ys * rise == f * earned_y + (ys * rise) % f,
            0 <= (xs * rise) % f < f,
            0 <= (ys * rise) % f < f,
            0 <= xs,
            0 <= ys,
            0 <= earned_x,
            0 <= earned_y,
            f > 0,
    ;
}

/// The tokens staked by all of `stakes`.
pub open spec fn total_staked(stakes: Seq<StakeState>) -> nat
    decreases stakes.len(),
{
    if stakes.len() == 0 {
        0
    } else {
        stakes.last().staked_amount as nat + total_staked(stakes.drop_last())
    }
}

/// What all of `stakes` earn when the multiplier rises to `multiplier`.
pub open spec fn total_earned(stakes: Seq<StakeState>, multiplier: Decimal) -> nat
    decreases stakes.len(),
{
    if stakes.len() == 0 {
        0
    } else {
        stakes.last().new_dividend(multiplier) + total_earned(stakes.drop_last(), multiplier)
    }
}

/// Stakers who all stand at the multiplier `from` earn together no more,
/// when it rises to `to`, than their stakes taken together would, and
/// less than that by less than a unit for each of them.
pub proof fn lemma_total_earned_bounded(
    stakes: Seq<StakeState>,
    from: Decimal,
    to: Decimal,
)
    requires
        from.0 <= to.0,
        forall|i: int| 0 <= i < stakes.len() ==> (#[trigger] stakes[i]).multiplier == from,
    ensures
        total_earned(stakes, to) <= ratio(
            total_staked(stakes),
            (to.0 - from.0) as nat,
            DECIMAL_FRACTIONAL as nat,
        ),
        ratio(total_staked(stakes), (to.0 - from.0) as nat, DECIMAL_FRACTIONAL as nat)
            <= total_earned(stakes, to) + stakes.len(),
    decreases stakes.len(),
{
    let rise = (to.0 - from.0) as nat;
    if stakes.len() == 0 {
        assert(0 * rise == 0) by (nonlinear_arith);
    } else {
        let rest = stakes.drop_last();
        assert forall|i: int| 0 <= i < rest.len() implies (#[trigger] rest[i]).multiplier
            == from by {
            assert(rest[i] == stakes[i]);
        }
        lemma_total_earned_bounded(rest, from, to);
        lemma_split_shares(stakes.last().staked_amount as nat, total_staked(rest), rise);
    }
}

/// No deposit pays out more than was deposited, and none loses more to
/// rounding than a unit for each staker: what all stakers earn by it and
/// the residual after it are at most the deposit and the residual before
/// it, and less than that by at most as many units as there are stakers.
pub proof fn lemma_dividends_never_exceed_deposit(
    state: State,
    stakes: Seq<StakeState>,
    attached: u128,
)
    requires
        total_staked(stakes) == state.total_staked,
        forall|i: int|
            0 <= i < stakes.len() ==> (#[trigger] stakes[i]).multiplier == state.multiplier,
        spec_deposit(state, attached) is Ok,
    ensures
        total_earned(stakes, spec_deposit(state, attached)->Ok_0.multiplier) + spec_deposit(
            state,
            attached,
        )->Ok_0.residual <= attached + state.residual,
        attached + state.residual <= total_earned(
            stakes,
            spec_deposit(state, attached)->Ok_0.multiplier,
        ) + spec_deposit(state, attached)->Ok_0.residual + stakes.len(),
{
    let after = spec_deposit(state, attached)->Ok_0;
    let pool = (attached + state.residual) as nat;
    lemma_total_earned_bounded(stakes, state.multiplier, after.multiplier);
    if state.total_staked == 0 {
        assert(0 * ((after.multiplier.0 - state.multiplier.0) as nat) == 0) by (nonlinear_arith);
    } else {
        lemma_distributed_at_most_pool(pool, state.total_staked as nat);
    }
}

/// The sender who stakes, unstakes or withdraws stays within what was
/// staked for it: the tokens that it has staked, unstaking and unstaked
/// change together by what was received for it, less what it withdrew.
/// The total staked changes by what was received, less what was unstaked.
pub proof fn lemma_tokens_are_conserved(
    config: &Config,
    querier: &TaxQuerier,
    state: State,
    stake_state: Option<StakeState>,
    current_time: Timestamp,
    sender: Addr,
    attached: u128,
    msg: ExecuteMsg,
)
    requires
        spec_execute(config, querier, state, stake_state, current_time, sender, attached, msg)
            is Ok,
    ensures
        ({
            let outcome = spec_execute(
                config,
                querier,
                state,
                stake_state,
                current_time,
                sender,
                attached,
                msg,
            )->Ok_0;
            let before = holdings(stake_state);
            let after = holdings(outcome.stake_state);
            &&& msg is Deposit ==> outcome.stake_state is None && outcome.state.total_staked
                == state.total_staked
            &&& msg is Receive ==> after == before + msg->Receive_0.amount
                && outcome.state.total_staked == state.total_staked + msg->Receive_0.amount
            &&& msg is UnstakeTokens ==> after == before && outcome.state.total_staked
                == state.total_staked - msg->UnstakeTokens_amount
            &&& msg is WithdrawTokens ==> after == before - msg->WithdrawTokens_amount
                && outcome.state.total_staked == state.total_staked
            &&& msg is WithdrawDividends ==> after == before && outcome.state.total_staked
                == state.total_staked
        }),
{
}

/// The tokens that a staker has in any stage.
pub open spec fn holdings(stake_state: Option<StakeState>) -> int {
    match stake_state {
        Some(stake_state) => stake_state.staked_amount + stake_state.unstaking_amount
            + stake_state.unstaked_amount,
        None => 0,
    }
}

/// No call lowers the multiplier of the collector, and no staker is ever
/// ahead of it: a staker whose multiplier was at most that of the
/// collector before a call is so after it.
pub proof fn lemma_staker_never_ahead(
    config: &Config,
    querier: &TaxQuerier,
    state: State,
    stake_state: Option<StakeState>,
    current_time: Timestamp,
    sender: Addr,
    attached: u128,
    msg: ExecuteMsg,
)
    requires
        stake_state is Some ==> stake_state->Some_0.multiplier.0 <= state.multiplier.0,
        spec_execute(config, querier, state, stake_state, current_time, sender, attached, msg)
            is Ok,
    ensures
        ({
            let outcome = spec_execute(
                config,
                querier,
                state,
                stake_state,
                current_time,
                sender,
                attached,
                msg,
            )->Ok_0;
            &&& outcome.state.multiplier.0 >= state.multiplier.0
            &&& outcome.stake_state is Some ==> outcome.stake_state->Some_0.multiplier.0
                <= outcome.state.multiplier.0
        }),
{
}

/// What a staker earns by a deposit is never more than the share of the
/// pool that its stake is of all that is staked, and less than that share
/// by less than one unit and a part in 10^18 of its stake.
pub proof fn lemma_share_is_nearly_exact(staked: nat, pool: nat, all_staked: nat)
    requires
        all_staked > 0,
        staked <= all_staked,
    ensures
        ({
            let earned = ratio(
                staked,
                deposit_per_stake(pool, all_staked),
                DECIMAL_FRACTIONAL as nat,
            );
            &&& earned * all_staked <= staked * pool
            &&& staked * pool * DECIMAL_FRACTIONAL < (earned + 1) * DECIMAL_FRACTIONAL
                * all_staked + staked * all_staked
        }),
{
    let f = DECIMAL_FRACTIONAL as int;
    let t = all_staked as int;
    let x = staked as int;
    let p = pool as int;
    let rise = deposit_per_stake(pool, all_staked) as int;
    let earned = ratio(staked, rise as nat, f as nat) as int;
    lemma_fundamental_div_mod(p * f, t);
    lemma_fundamental_div_mod(x * rise, f);
    let lost_rise = (p * f) % t;
    let lost_unit = (x * rise) % f;
    assert(earned * t * f <= x * p * f) by (nonlinear_arith)
        requires
            p * f == t * rise + lost_rise,
            x * rise == f * earned + lost_unit,
            0 <= lost_rise,
            0 <= lost_unit,
            0 <= x,
            0 <= t,
    ;
    assert(earned * t <= x * p) by (nonlinear_arith)
        requires
            earned * t * f <= x * p * f,
            f > 0,
    ;
    assert(x * p * f < (earned + 1) * f * t + x * t) by (nonlinear_arith)
        requires
            p * f == t * rise + lost_rise,
            x * rise == f * earned + lost_unit,
            0 <= lost_rise < t,
            0 <= lost_unit < f,
            0 <= x,
            0 < t,
    ;
}

} // verus!
