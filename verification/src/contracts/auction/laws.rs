//! What holds of the auction whatever the record, the configuration and
//! the time.

use crate::auction::{
    deposit_ceil, deposit_floor, lease_seconds, lemma_deposit_ceil_bounds, ExecuteMsg,
    RATE_SEC_DENOM,
};
use crate::contracts::auction::contract::{
    closed_for_bids, deposit_in_bounds, spec_execute, spec_execute_bid, spec_execute_bid_existing,
    spec_execute_set_rate,
};
use crate::contracts::auction::state::{
    lemma_page_entries, lemma_start_after_is_exclusive, lex_less, option_addr_view, select_page,
    Config, NameState, OwnerStatus,
};
use crate::host::{Addr, Coin, CosmosMsg};
use crate::terra::{after_tax, TaxQuerier};
use crate::utils::Timestamp;
use vstd::arithmetic::div_mod::{
    lemma_div_is_ordered, lemma_div_multiples_vanish, lemma_fundamental_div_mod,
};
use vstd::prelude::*;

verus! {

/// At any time not before the begin of its lease a name is in exactly one
/// phase, and which one is decided by the record, the configuration and
/// the time alone: expired once the deposit is used up; else open to
/// counter-bids while the counter delay runs; else in transition while
/// the transition delay runs from its reference; else valid. Asking again
/// with nothing changed gives the same phase.
pub proof fn lemma_phase_is_decided(name_state: &NameState, config: &Config, current_time: Timestamp)
    requires
        current_time.0 >= name_state.begin_time.0,
    ensures
        ({
            let status = name_state.spec_owner_status(config, current_time);
            let spent = current_time.0 - name_state.begin_time.0;
            let expired = name_state.rate > 0 && spent >= lease_seconds(
                name_state.begin_deposit as nat,
                name_state.rate as nat,
            );
            let countering = spent < config.counter_delay_secs.0;
            let in_transition = name_state.seconds_since_transition(current_time)
                < NameState::transition_span(config);
            &&& status is Expired <==> expired
            &&& status is CounterDelay <==> !expired && countering
            &&& status is TransitionDelay <==> !expired && !countering && in_transition
            &&& status is Valid <==> !expired && !countering && !in_transition
            &&& status == name_state.spec_owner_status(config, current_time)
        }),
{
}

/// A name at rate zero never expires, and is never closed for bids.
pub proof fn lemma_zero_rate_never_expires(
    name_state: &NameState,
    config: &Config,
    current_time: Timestamp,
)
    requires
        name_state.rate == 0,
        current_time.0 >= name_state.begin_time.0,
    ensures
        !(name_state.spec_owner_status(config, current_time) is Expired),
        !closed_for_bids(config, name_state, current_time.0 - name_state.begin_time.0),
        name_state.spec_expire_time() is None,
        name_state.bid_span(config) == 0,
{
}

/// Until a name expires its deposit covers the rent spent, though the rent
/// is rounded up: what is left is the begin deposit less the rent.
pub proof fn lemma_unexpired_deposit_covers_rent(name_state: &NameState, current_time: Timestamp)
    requires
        current_time.0 >= name_state.begin_time.0,
        !name_state.is_expired(current_time),
    ensures
        deposit_ceil(
            (current_time.0 - name_state.begin_time.0) as nat,
            name_state.rate as nat,
        ) <= name_state.begin_deposit,
        name_state.spec_current_deposit(current_time) + deposit_ceil(
            (current_time.0 - name_state.begin_time.0) as nat,
            name_state.rate as nat,
        ) == name_state.begin_deposit,
{
    let s = (current_time.0 - name_state.begin_time.0) as int;
    let rate = name_state.rate as int;
    let dep = name_state.begin_deposit as int;
    let period = RATE_SEC_DENOM as int;
    if rate == 0 {
        assert(rate * s == 0) by (nonlinear_arith)
            requires
                rate == 0,
        ;
        assert((period - 1) / period == 0) by (nonlinear_arith)
            requires
                period == 86_400,
        ;
    } else {
        let lease = lease_seconds(dep as nat, rate as nat) as int;
        assert(s + 1 <= lease);
        lemma_fundamental_div_mod(dep * period, rate);
        assert(lease * rate <= dep * period) by (nonlinear_arith)
            requires
                dep * period == rate * lease + (dep * period) % rate,
                0 <= (dep * period) % rate,
        ;
        assert((s + 1) * rate <= lease * rate) by (nonlinear_arith)
            requires
                s + 1 <= lease,
                rate > 0,
        ;
        assert(rate * s + period - 1 < (dep + 1) * period) by (nonlinear_arith)
            requires
                (s + 1) * rate <= dep * period,
                rate >= 1,
                period == 86_400,
        ;
        assert((rate * s + period - 1) / period <= dep) by (nonlinear_arith)
            requires
                rate * s + period - 1 < (dep + 1) * period,
                period > 0,
        ;
    }
}

/// The funds of a bid that outbids the holder of a name that has not
/// expired are conserved: the begin deposit of the holder is the rent
/// spent and the refund; the deposit of the bidder is the refund and what
/// goes to the collector; and the messages carry just these two amounts,
/// each less its tax, the refund first and only if there is one.
pub proof fn lemma_bid_conserves_funds(
    config: &Config,
    querier: &TaxQuerier,
    name_state: &NameState,
    current_time: Timestamp,
    sender: Addr,
    deposit: u128,
    rate: u128,
    owner: Option<Addr>,
    transition_reference_time: Timestamp,
)
    requires
        current_time.0 >= name_state.begin_time.0,
        !name_state.is_expired(current_time),
        spec_execute_bid_existing(
            config,
            querier,
            name_state,
            current_time,
            sender,
            deposit,
            rate,
            owner,
            transition_reference_time,
        ) is Ok,
    ensures
        ({
            let outcome = spec_execute_bid_existing(
                config,
                querier,
                name_state,
                current_time,
                sender,
                deposit,
                rate,
                owner,
                transition_reference_time,
            )->Ok_0;
            let spent = deposit_ceil(
                (current_time.0 - name_state.begin_time.0) as nat,
                name_state.rate as nat,
            );
            let refund = name_state.spec_current_deposit(current_time);
            let forwarded = (deposit - refund) as u128;
            let refund_msg = CosmosMsg::BankSend {
                to_address: name_state.owner,
                amount: Coin {
                    denom: config.stable_denom,
                    amount: after_tax(querier, config.stable_denom@, refund),
                },
            };
            let forward_msg = CosmosMsg::CollectorDeposit {
                contract_addr: config.collector_addr,
                funds: Coin {
                    denom: config.stable_denom,
                    amount: after_tax(querier, config.stable_denom@, forwarded),
                },
            };
            &&& name_state.begin_deposit == spent + refund
            &&& deposit == refund + forwarded
            &&& forwarded > 0
            &&& outcome.name_state.begin_deposit == deposit
            &&& outcome.messages == if refund > 0 {
                seq![refund_msg, forward_msg]
            } else {
                seq![forward_msg]
            }
        }),
{
    lemma_unexpired_deposit_covers_rent(name_state, current_time);
}

/// Whatever a bid or a change of rate writes is within the bounds of a
/// lease at the rate written: the deposit pays for no less than the
/// shortest lease and for no more than the longest. Funding never takes
/// from the deposit, and leaves it within what the longest lease from now
/// costs on top of the time spent.
pub proof fn lemma_written_deposit_in_bounds(
    config: &Config,
    querier: &TaxQuerier,
    name_state: Option<NameState>,
    current_time: Timestamp,
    sender: Addr,
    attached: u128,
    msg: ExecuteMsg,
)
    requires
        spec_execute(config, querier, name_state, current_time, sender, attached, msg) is Ok,
    ensures
        ({
            let written = spec_execute(
                config,
                querier,
                name_state,
                current_time,
                sender,
                attached,
                msg,
            )->Ok_0.name_state;
            &&& msg is BidName || msg is SetNameRate ==> deposit_in_bounds(
                config,
                written.rate,
                written.begin_deposit,
            ) && written.begin_time == current_time
            &&& msg is FundName ==> written.begin_deposit == name_state->Some_0.begin_deposit
                + attached && written.begin_deposit <= deposit_floor(
                (config.max_lease_secs.0 + (current_time.0 - written.begin_time.0)) as nat,
                written.rate as nat,
            )
        }),
{
}

/// A bid by the owner of the name while a bid on it can be countered
/// gives the name back without a new transition: the transition reference
/// goes back to what it was before the bid that is countered.
pub proof fn lemma_owner_counter_keeps_transition(
    config: &Config,
    querier: &TaxQuerier,
    name_state: &NameState,
    current_time: Timestamp,
    sender: Addr,
    deposit: u128,
    rate: u128,
)
    requires
        name_state.spec_owner_status(config, current_time) is CounterDelay,
        spec_execute_bid(
            config,
            querier,
            Some(*name_state),
            current_time,
            sender,
            deposit,
            rate,
        ) is Ok,
    ensures
        ({
            let written = spec_execute_bid(
                config,
                querier,
                Some(*name_state),
                current_time,
                sender,
                deposit,
                rate,
            )->Ok_0.name_state;
            &&& written.owner == sender
            &&& written.previous_owner == name_state.previous_owner
            &&& written.previous_transition_reference_time
                == name_state.previous_transition_reference_time
            &&& written.transition_reference_time == if option_addr_view(
                name_state.previous_owner,
            ) == Some(sender@) {
                name_state.previous_transition_reference_time
            } else {
                current_time
            }
        }),
{
}

/// How far a phase is along the life of a lease: a bid that can be
/// countered comes first, then the transition, then validity, and expiry
/// last.
pub open spec fn phase_rank(status: OwnerStatus) -> nat {
    match status {
        OwnerStatus::CounterDelay { .. } => 0,
        OwnerStatus::TransitionDelay { .. } => 1,
        OwnerStatus::Valid { .. } => 2,
        OwnerStatus::Expired { .. } => 3,
    }
}

/// While a record is not written to, its phase never goes back as time
/// goes on: a transition never turns into a counter delay again, a valid
/// name never into one in transition, and an expired name stays expired
/// with the same expire time.
pub proof fn lemma_phase_never_goes_back(
    name_state: &NameState,
    config: &Config,
    earlier: Timestamp,
    later: Timestamp,
)
    requires
        name_state.begin_time.0 <= earlier.0 <= later.0,
    ensures
        phase_rank(name_state.spec_owner_status(config, earlier)) <= phase_rank(
            name_state.spec_owner_status(config, later),
        ),
        name_state.spec_owner_status(config, earlier) is Expired ==> name_state.spec_owner_status(
            config,
            later,
        ) == name_state.spec_owner_status(config, earlier),
{
}

/// A bid and a change of rate begin a counter delay: where the counter
/// delay and the shortest lease are not zero, the record that either
/// writes is open to counter-bids at the time of the call, with its holder
/// as the bidder and the owner of the name as it was before.
pub proof fn lemma_write_begins_counter_delay(
    config: &Config,
    querier: &TaxQuerier,
    name_state: Option<NameState>,
    current_time: Timestamp,
    sender: Addr,
    attached: u128,
    msg: ExecuteMsg,
)
    requires
        config.counter_delay_secs.0 > 0,
        config.min_lease_secs.0 > 0,
        msg is BidName || msg is SetNameRate,
        spec_execute(config, querier, name_state, current_time, sender, attached, msg) is Ok,
    ensures
        ({
            let written = spec_execute(
                config,
                querier,
                name_state,
                current_time,
                sender,
                attached,
                msg,
            )->Ok_0.name_state;
            written.spec_owner_status(config, current_time) == (OwnerStatus::CounterDelay {
                name_owner: written.previous_owner,
                bid_owner: written.owner,
                transition_reference_time: written.previous_transition_reference_time,
            })
        }),
{
    let written = spec_execute(
        config,
        querier,
        name_state,
        current_time,
        sender,
        attached,
        msg,
    )->Ok_0.name_state;
    lemma_written_deposit_in_bounds(
        config,
        querier,
        name_state,
        current_time,
        sender,
        attached,
        msg,
    );
    lemma_bounded_deposit_pays_for_a_second(config, written.rate, written.begin_deposit);
}

/// A deposit within the bounds of a lease pays for at least the shortest
/// lease: at a rate that is not zero, for its every second.
pub proof fn lemma_bounded_deposit_pays_for_a_second(config: &Config, rate: u128, deposit: u128)
    requires
        deposit_in_bounds(config, rate, deposit),
    ensures
        rate > 0 ==> lease_seconds(deposit as nat, rate as nat) >= config.min_lease_secs.0,
{
    if rate > 0 {
        let period = RATE_SEC_DENOM as int;
        let min = config.min_lease_secs.0 as int;
        let r = rate as int;
        let d = deposit as int;
        lemma_deposit_ceil_bounds(min as nat, rate as nat);
        assert(d * period >= min * r) by (nonlinear_arith)
            requires
                d >= deposit_ceil(min as nat, r as nat),
                deposit_ceil(min as nat, r as nat) * period >= min * r,
                period > 0,
        ;
        lemma_div_is_ordered(min * r, d * period, r);
        lemma_div_multiples_vanish(min, r);
        assert(min * r == r * min) by (nonlinear_arith);
    }
}

/// A change of rate neither adds to the deposit nor takes from it: what
/// the holder had is the rent spent so far and the deposit that the lease
/// begins anew with, and no message is sent.
pub proof fn lemma_set_rate_conserves_deposit(
    config: &Config,
    name_state: &NameState,
    current_time: Timestamp,
    sender: Addr,
    rate: u128,
)
    requires
        spec_execute_set_rate(config, name_state, current_time, sender, rate) is Ok,
    ensures
        ({
            let outcome = spec_execute_set_rate(
                config,
                name_state,
                current_time,
                sender,
                rate,
            )->Ok_0;
            let spent = deposit_ceil(
                (current_time.0 - name_state.begin_time.0) as nat,
                name_state.rate as nat,
            );
            &&& current_time.0 >= name_state.begin_time.0
            &&& name_state.begin_deposit == spent + outcome.name_state.begin_deposit
            &&& outcome.messages.len() == 0
            &&& outcome.name_state.owner == name_state.owner
            &&& outcome.name_state.transition_reference_time
                == name_state.transition_reference_time
        }),
{
    lemma_unexpired_deposit_covers_rent(name_state, current_time);
}

/// No byte string comes before itself.
pub proof fn lemma_lex_less_irreflexive(a: Seq<u8>)
    ensures
        !lex_less(a, a),
    decreases a.len(),
{
    if a.len() > 0 {
        lemma_lex_less_irreflexive(a.skip(1));
    }
}

/// The lexicographic order is transitive.
pub proof fn lemma_lex_less_transitive(a: Seq<u8>, b: Seq<u8>, c: Seq<u8>)
    requires
        lex_less(a, b),
        lex_less(b, c),
    ensures
        lex_less(a, c),
    decreases a.len(),
{
    if a.len() > 0 && a[0] == b[0] && b[0] == c[0] {
        lemma_lex_less_transitive(a.skip(1), b.skip(1), c.skip(1));
    }
}

/// Whether the keys of `entries` are in strictly ascending order.
pub open spec fn ascending(entries: Seq<(Vec<u8>, NameState)>) -> bool {
    forall|i: int, j: int|
        0 <= i < j < entries.len() ==> lex_less(
            (#[trigger] entries[i]).0@,
            (#[trigger] entries[j]).0@,
        )
}

/// Where no entry comes before the start, the page is the first entries
/// as they are.
pub proof fn lemma_page_without_skips(
    entries: Seq<(Vec<u8>, NameState)>,
    start: Option<Seq<u8>>,
    limit: nat,
)
    requires
        start is Some ==> forall|i: int|
            0 <= i < entries.len() ==> !lex_less((#[trigger] entries[i]).0@, start->Some_0),
    ensures
        select_page(entries, start, limit) == entries.take(
            if limit <= entries.len() {
                limit as int
            } else {
                entries.len() as int
            },
        ),
    decreases entries.len(),
{
    if limit == 0 || entries.len() == 0 {
        assert(select_page(entries, start, limit) =~= entries.take(0));
    } else {
        let rest = entries.skip(1);
        assert(entries[0] == entries[0]);
        assert forall|i: int| 0 <= i < rest.len() && start is Some implies !lex_less(
            (#[trigger] rest[i]).0@,
            start->Some_0,
        ) by {
            assert(rest[i] == entries[i + 1]);
        }
        lemma_page_without_skips(rest, start, (limit - 1) as nat);
        let count = if limit <= entries.len() {
            limit as int
        } else {
            entries.len() as int
        };
        assert(select_page(entries, start, limit) =~= entries.take(count));
    }
}

/// Paging through the records with the last name of a page as the cursor
/// of the next misses nothing and repeats nothing: a full page and the
/// page that starts after its last name are together the page of both
/// their limits.
pub proof fn lemma_pages_follow_each_other(
    entries: Seq<(Vec<u8>, NameState)>,
    start: Option<Seq<u8>>,
    limit: nat,
    next_limit: nat,
)
    requires
        ascending(entries),
        limit > 0,
        select_page(entries, start, limit).len() == limit,
    ensures
        select_page(entries, start, limit) + select_page(
            entries,
            Some(select_page(entries, start, limit).last().0@.push(0u8)),
            next_limit,
        ) == select_page(entries, start, limit + next_limit),
    decreases entries.len(),
{
    let page = select_page(entries, start, limit);
    let last = page.last().0@;
    let cursor = Some(last.push(0u8));
    if entries.len() == 0 {
    } else {
        let rest = entries.skip(1);
        let first = entries[0].0@;
        assert forall|i: int, j: int| 0 <= i < j < rest.len() implies lex_less(
            (#[trigger] rest[i]).0@,
            (#[trigger] rest[j]).0@,
        ) by {
            assert(rest[i] == entries[i + 1]);
            assert(rest[j] == entries[j + 1]);
        }
        assert forall|i: int| 0 <= i < rest.len() implies lex_less(
            first,
            (#[trigger] rest[i]).0@,
        ) by {
            assert(rest[i] == entries[i + 1]);
        }
        if start is Some && lex_less(first, start->Some_0) {
            // The first entry is on neither page.
            lemma_pages_follow_each_other(rest, start, limit, next_limit);
            lemma_page_entries(rest, start, limit);
            assert(rest.contains(page.last()));
            let k = choose|k: int| 0 <= k < rest.len() && rest[k] == page.last();
            assert(lex_less(first, rest[k].0@));
            lemma_first_is_before_cursor(first, last);
        } else if limit == 1 {
            // The first entry is the page; the next page starts right after it.
            assert(select_page(rest, start, 0) =~= Seq::empty());
            assert(page =~= seq![entries[0]]);
            lemma_lex_less_irreflexive(first);
            lemma_start_after_is_exclusive(first, first);
            assert forall|i: int| 0 <= i < rest.len() implies !lex_less(
                (#[trigger] rest[i]).0@,
                cursor->Some_0,
            ) by {
                lemma_start_after_is_exclusive(first, rest[i].0@);
            }
            assert forall|i: int| 0 <= i < rest.len() && start is Some implies !lex_less(
                (#[trigger] rest[i]).0@,
                start->Some_0,
            ) by {
                if lex_less(rest[i].0@, start->Some_0) {
                    lemma_lex_less_transitive(first, rest[i].0@, start->Some_0);
                }
            }
            lemma_page_without_skips(rest, cursor, next_limit);
            lemma_page_without_skips(rest, start, next_limit);
        } else {
            // The first entry opens the page; the rest of it is a full page too.
            let tail = select_page(rest, start, (limit - 1) as nat);
            assert(page =~= seq![entries[0]] + tail);
            assert(page.last() == tail.last());
            lemma_pages_follow_each_other(rest, start, (limit - 1) as nat, next_limit);
            lemma_page_entries(rest, start, (limit - 1) as nat);
            assert(rest.contains(tail.last()));
            let k = choose|k: int| 0 <= k < rest.len() && rest[k] == tail.last();
            assert(lex_less(first, rest[k].0@));
            lemma_first_is_before_cursor(first, last);
            assert(select_page(entries, start, limit + next_limit) =~= seq![entries[0]]
                + select_page(rest, start, (limit - 1 + next_limit) as nat));
            assert(page + select_page(entries, cursor, next_limit) =~= seq![entries[0]] + (tail
                + select_page(rest, cursor, next_limit)));
        }
    }
}

/// What comes before a name comes before the cursor after the name.
pub proof fn lemma_first_is_before_cursor(first: Seq<u8>, name: Seq<u8>)
    requires
        lex_less(first, name),
    ensures
        lex_less(first, name.push(0u8)),
{
    lemma_start_after_is_exclusive(name, first);
    if lex_less(name, first) {
        lemma_lex_less_transitive(first, name, first);
        lemma_lex_less_irreflexive(first);
    }
}

/// A name is expired exactly from its expire time on: at any time not
/// before the begin of the lease, the phase is expiry if and only if
/// there is an expire time and it is not later than the time. An expire
/// time beyond the last representable second is never reached.
pub proof fn lemma_expired_from_expire_time(
    name_state: &NameState,
    config: &Config,
    current_time: Timestamp,
)
    requires
        current_time.0 >= name_state.begin_time.0,
    ensures
        name_state.spec_owner_status(config, current_time) is Expired <==> (
        name_state.spec_expire_time() is Some && current_time.0
            >= name_state.spec_expire_time()->Some_0.0),
        name_state.spec_owner_status(config, current_time) is Expired ==> name_state.spec_owner_status(
            config,
            current_time,
        )->Expired_expire_time == name_state.spec_expire_time()->Some_0,
{
}

/// The contract keeps the times of a record in order: what a call writes
/// for a record whose transition references are not later than one
/// another and than the begin of the lease is such a record again, begun
/// no later than the call. So from the begin of a lease on, its transition
/// reference is never ahead of the time.
pub proof fn lemma_times_stay_in_order(
    config: &Config,
    querier: &TaxQuerier,
    name_state: Option<NameState>,
    current_time: Timestamp,
    sender: Addr,
    attached: u128,
    msg: ExecuteMsg,
)
    requires
        name_state is Some ==> name_state->Some_0.times_in_order(),
        spec_execute(config, querier, name_state, current_time, sender, attached, msg) is Ok,
    ensures
        ({
            let written = spec_execute(
                config,
                querier,
                name_state,
                current_time,
                sender,
                attached,
                msg,
            )->Ok_0.name_state;
            &&& written.times_in_order()
            &&& written.begin_time.0 <= current_time.0
            &&& written.seconds_since_transition(current_time) == current_time.0
                - written.transition_reference_time.0
        }),
{
}

/// A page of records that are stored in ascending order of their keys is
/// in ascending order itself, and holds no key before its start: after the
/// name to start after, where there is one.
pub proof fn lemma_page_is_ascending(
    entries: Seq<(Vec<u8>, NameState)>,
    start: Option<Seq<u8>>,
    limit: nat,
)
    requires
        ascending(entries),
    ensures
        ascending(select_page(entries, start, limit)),
        start is Some ==> forall|i: int|
            0 <= i < select_page(entries, start, limit).len() ==> !lex_less(
                (#[trigger] select_page(entries, start, limit)[i]).0@,
                start->Some_0,
            ),
    decreases entries.len(),
{
    let page = select_page(entries, start, limit);
    if limit == 0 || entries.len() == 0 {
    } else {
        let rest = entries.skip(1);
        assert forall|i: int, j: int| 0 <= i < j < rest.len() implies lex_less(
            (#[trigger] rest[i]).0@,
            (#[trigger] rest[j]).0@,
        ) by {
            assert(rest[i] == entries[i + 1]);
            assert(rest[j] == entries[j + 1]);
        }
        if start is Some && lex_less(entries[0].0@, start->Some_0) {
            lemma_page_is_ascending(rest, start, limit);
        } else {
            let tail = select_page(rest, start, (limit - 1) as nat);
            lemma_page_is_ascending(rest, start, (limit - 1) as nat);
            lemma_page_entries(rest, start, (limit - 1) as nat);
            assert(page =~= seq![entries[0]] + tail);
            assert forall|i: int, j: int| 0 <= i < j < page.len() implies lex_less(
                (#[trigger] page[i]).0@,
                (#[trigger] page[j]).0@,
            ) by {
                assert(page[j] == tail[j - 1]);
                if i == 0 {
                    assert(rest.contains(tail[j - 1]));
                    let k = choose|k: int| 0 <= k < rest.len() && rest[k] == tail[j - 1];
                    assert(rest[k] == entries[k + 1]);
                } else {
                    assert(page[i] == tail[i - 1]);
                }
            }
            assert forall|i: int| 0 <= i < page.len() && start is Some implies !lex_less(
                (#[trigger] page[i]).0@,
                start->Some_0,
            ) by {
                if i > 0 {
                    assert(page[i] == tail[i - 1]);
                }
            }
        }
    }
}

} // verus!
