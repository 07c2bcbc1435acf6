//! Stored state of the auction and what follows from it at a given time.

use crate::auction::{
    deposit_ceil, deposit_floor, deposit_from_seconds_ceil, lease_seconds, seconds_from_deposit,
    spec_seconds_from_deposit, RATE_SEC_DENOM,
};
use crate::math::checked_multiply_ratio;
use crate::errors::StdError;
use crate::host::Addr;
use crate::utils::{Timedelta, Timestamp};
use vstd::prelude::*;
use vstd::string::{StrSliceExecFns, StringSliceAdditionalSpecFns};
use vstd::utf8::{decode_utf8, valid_utf8};

verus! {

/// Number of names on a page where the query names none.
pub const DEFAULT_LIMIT: u32 = 10;

/// Largest number of names on a page.
pub const MAX_LIMIT: u32 = 30;

/// The key at which a page begins that starts after the name
/// `start_after`: the bytes of the name followed by a zero byte, the least
/// key greater than the name.
pub fn calc_range_start_str(start_after: Option<&str>) -> (r: Option<Vec<u8>>)
    ensures
        start_after is None ==> r is None,
        start_after is Some ==> r is Some && r->Some_0@ == start_after->Some_0.spec_bytes().push(
            0u8,
        ),
{
    match start_after {
        Some(s) => {
            let mut v: Vec<u8> = s.as_bytes_vec();
            v.push(0);
            Some(v)
        },
        None => None,
    }
}

/// Lexicographic order of byte strings: `a` comes strictly before `b`.
pub open spec fn lex_less(a: Seq<u8>, b: Seq<u8>) -> bool
    decreases a.len(),
{
    if b.len() == 0 {
        false
    } else if a.len() == 0 {
        true
    } else if a[0] != b[0] {
        a[0] < b[0]
    } else {
        lex_less(a.skip(1), b.skip(1))
    }
}

/// Whether `a` comes strictly before `b` in lexicographic order.
pub fn bytes_less(a: &Vec<u8>, b: &Vec<u8>) -> (r: bool)
    ensures
        r == lex_less(a@, b@),
{
    let mut i: usize = 0;
    assert(a@.skip(0) =~= a@);
    assert(b@.skip(0) =~= b@);
    while i < a.len() && i < b.len()
        invariant
            i <= a.len(),
            i <= b.len(),
            lex_less(a@, b@) == lex_less(a@.skip(i as int), b@.skip(i as int)),
        decreases a.len() - i,
    {
        assert(a@.skip(i as int)[0] == a@[i as int]);
        assert(b@.skip(i as int)[0] == b@[i as int]);
        if a[i] != b[i] {
            return a[i] < b[i];
        }
        assert(a@.skip(i as int).skip(1) =~= a@.skip(i + 1));
        assert(b@.skip(i as int).skip(1) =~= b@.skip(i + 1));
        i += 1;
    }
    a.len() < b.len()
}

/// A name followed by a zero byte is the least key after the name: a page
/// that starts there holds exactly the keys strictly after the name.
pub proof fn lemma_start_after_is_exclusive(name: Seq<u8>, key: Seq<u8>)
    ensures
        !lex_less(key, name.push(0u8)) <==> lex_less(name, key),
    decreases name.len(),
{
    let start = name.push(0u8);
    reveal_with_fuel(lex_less, 3);
    if name.len() == 0 {
        assert(start[0] == 0u8);
        if key.len() > 0 && key[0] == 0u8 {
            assert(start.skip(1).len() == 0);
        }
    } else {
        assert(start[0] == name[0]);
        assert(start.skip(1) =~= name.skip(1).push(0u8));
        if key.len() > 0 && key[0] == name[0] {
            lemma_start_after_is_exclusive(name.skip(1), key.skip(1));
        }
    }
}

/// The record stored under `key`: that of the first entry with this key.
pub open spec fn lookup(entries: Seq<(Vec<u8>, NameState)>, key: Seq<u8>) -> Option<NameState>
    decreases entries.len(),
{
    if entries.len() == 0 {
        None
    } else if entries[0].0@ == key {
        Some(entries[0].1)
    } else {
        lookup(entries.skip(1), key)
    }
}

/// Whether two byte strings are the same.
pub fn bytes_equal(a: &Vec<u8>, b: &Vec<u8>) -> (r: bool)
    ensures
        r == (a@ == b@),
{
    if a.len() != b.len() {
        return false;
    }
    let mut i: usize = 0;
    while i < a.len()
        invariant
            i <= a.len(),
            a.len() == b.len(),
            a@.take(i as int) == b@.take(i as int),
        decreases a.len() - i,
    {
        if a[i] != b[i] {
            return false;
        }
        assert(a@.take(i + 1) =~= a@.take(i as int).push(a@[i as int]));
        assert(b@.take(i + 1) =~= b@.take(i as int).push(b@[i as int]));
        i += 1;
    }
    assert(a@.take(a@.len() as int) =~= a@);
    assert(b@.take(b@.len() as int) =~= b@);
    true
}

/// The record stored under `name`, where there is one.
pub fn read_option_name_state(entries: &Vec<(Vec<u8>, NameState)>, name: &str) -> (r: Option<
    NameState,
>)
    ensures
        r == lookup(entries@, name.spec_bytes()),
{
    let key: Vec<u8> = name.as_bytes_vec();
    let mut i: usize = 0;
    assert(entries@.skip(0) =~= entries@);
    while i < entries.len()
        invariant
            i <= entries.len(),
            key@ == name.spec_bytes(),
            lookup(entries@, key@) == lookup(entries@.skip(i as int), key@),
        decreases entries.len() - i,
    {
        assert(entries@.skip(i as int)[0] == entries@[i as int]);
        if bytes_equal(&entries[i].0, &key) {
            return Some(entries[i].1.copy());
        }
        assert(entries@.skip(i as int).skip(1) =~= entries@.skip(i + 1));
        i += 1;
    }
    None
}

/// The record stored under `name`.
pub fn read_name_state(entries: &Vec<(Vec<u8>, NameState)>, name: &str) -> (r: Result<
    NameState,
    StdError,
>)
    ensures
        match lookup(entries@, name.spec_bytes()) {
            Some(name_state) => r == Ok::<NameState, StdError>(name_state),
            None => r == Err::<NameState, StdError>(StdError::NotFound),
        },
{
    match read_option_name_state(entries, name) {
        Some(name_state) => Ok(name_state),
        None => Err(StdError::NotFound),
    }
}

/// The number of entries on a page: the limit asked for, ten where none is
/// named, and thirty at most.
pub open spec fn page_limit(limit: Option<u32>) -> nat {
    let asked = match limit {
        Some(limit) => limit,
        None => DEFAULT_LIMIT,
    };
    if asked <= MAX_LIMIT {
        asked as nat
    } else {
        MAX_LIMIT as nat
    }
}

/// The first `limit` of `entries`, in their order, whose key is not before
/// `start`.
pub open spec fn select_page(
    entries: Seq<(Vec<u8>, NameState)>,
    start: Option<Seq<u8>>,
    limit: nat,
) -> Seq<(Vec<u8>, NameState)>
    decreases entries.len(),
{
    if limit == 0 || entries.len() == 0 {
        Seq::empty()
    } else if start is Some && lex_less(entries[0].0@, start->Some_0) {
        select_page(entries.skip(1), start, limit)
    } else {
        seq![entries[0]] + select_page(entries.skip(1), start, (limit - 1) as nat)
    }
}

/// Every entry of a page is one of the entries it was selected from.
pub proof fn lemma_page_entries(
    entries: Seq<(Vec<u8>, NameState)>,
    start: Option<Seq<u8>>,
    limit: nat,
)
    ensures
        select_page(entries, start, limit).len() <= limit,
        select_page(entries, start, limit).len() <= entries.len(),
        forall|j: int|
            0 <= j < select_page(entries, start, limit).len() ==> entries.contains(
                #[trigger] select_page(entries, start, limit)[j],
            ),
    decreases entries.len(),
{
    if limit == 0 || entries.len() == 0 {
    } else {
        let rest = entries.skip(1);
        let page = select_page(entries, start, limit);
        if start is Some && lex_less(entries[0].0@, start->Some_0) {
            lemma_page_entries(rest, start, limit);
            assert forall|j: int| 0 <= j < page.len() implies entries.contains(
                #[trigger] page[j],
            ) by {
                let k = choose|k: int| 0 <= k < rest.len() && rest[k] == page[j];
                assert(entries[k + 1] == page[j]);
            }
        } else {
            let tail = select_page(rest, start, (limit - 1) as nat);
            lemma_page_entries(rest, start, (limit - 1) as nat);
            assert forall|j: int| 0 <= j < page.len() implies entries.contains(
                #[trigger] page[j],
            ) by {
                if j == 0 {
                    assert(entries[0] == page[0]);
                } else {
                    assert(page[j] == tail[j - 1]);
                    let k = choose|k: int| 0 <= k < rest.len() && rest[k] == tail[j - 1];
                    assert(entries[k + 1] == page[j]);
                }
            }
        }
    }
}

/// A record found under a key is the record of one of the entries.
pub proof fn lemma_lookup_entry(entries: Seq<(Vec<u8>, NameState)>, key: Seq<u8>)
    ensures
        lookup(entries, key) is Some ==> exists|i: int|
            0 <= i < entries.len() && (#[trigger] entries[i]).0@ == key && entries[i].1 == lookup(
                entries,
                key,
            )->Some_0,
    decreases entries.len(),
{
    if entries.len() == 0 {
    } else if entries[0].0@ == key {
    } else {
        lemma_lookup_entry(entries.skip(1), key);
        if lookup(entries, key) is Some {
            let rest = entries.skip(1);
            let k = choose|i: int|
                0 <= i < rest.len() && (#[trigger] rest[i]).0@ == key && rest[i].1 == lookup(
                    rest,
                    key,
                )->Some_0;
            assert(entries[k + 1] == rest[k]);
        }
    }
}

/// The key to start a page at, for the name to start after.
pub open spec fn range_start(start_after: Option<&str>) -> Option<Seq<u8>> {
    match start_after {
        Some(name) => Some(name.spec_bytes().push(0u8)),
        None => None,
    }
}

/// Whether `names` are the entries of `page` with each key decoded.
pub open spec fn names_of_page(
    names: Seq<(String, NameState)>,
    page: Seq<(Vec<u8>, NameState)>,
) -> bool {
    &&& names.len() == page.len()
    &&& forall|i: int|
        0 <= i < page.len() ==> (#[trigger] names[i]).0@ == decode_utf8(page[i].0@) && names[i].1
            == page[i].1
}

/// Calls `String::from_utf8`: the string that the bytes encode, where they
/// are valid UTF-8, and nothing otherwise.
#[verifier::external_body]
fn string_from_utf8(bytes: Vec<u8>) -> (r: Option<String>)
    ensures
        r is Some <==> valid_utf8(bytes@),
        r is Some ==> r->Some_0@ == decode_utf8(bytes@),
{
    match String::from_utf8(bytes) {
        Ok(s) => Some(s),
        Err(_) => None,
    }
}

/// A copy of a byte string.
fn clone_bytes(bytes: &Vec<u8>) -> (r: Vec<u8>)
    ensures
        r@ == bytes@,
{
    let mut out: Vec<u8> = Vec::new();
    let mut i: usize = 0;
    while i < bytes.len()
        invariant
            i <= bytes.len(),
            out@ == bytes@.take(i as int),
        decreases bytes.len() - i,
    {
        out.push(bytes[i]);
        assert(bytes@.take(i as int).push(bytes@[i as int]) =~= bytes@.take(i + 1));
        i += 1;
    }
    assert(bytes@.take(bytes@.len() as int) =~= bytes@);
    out
}

/// One page of the stored records: of `entries`, which hold the records in
/// ascending order of their keys, the first ones after the name
/// `start_after`, as many as the limit allows, each with its key as a
/// name. Fails where a key on the page is not valid UTF-8.
pub fn collect_name_states(
    entries: &Vec<(Vec<u8>, NameState)>,
    start_after: Option<&str>,
    limit: Option<u32>,
) -> (r: Result<Vec<(String, NameState)>, StdError>)
    ensures
        ({
            let page = select_page(entries@, range_start(start_after), page_limit(limit));
            &&& r is Ok <==> (forall|i: int|
                0 <= i < page.len() ==> valid_utf8(#[trigger] page[i].0@))
            &&& r is Ok ==> names_of_page(r->Ok_0@, page)
            &&& r is Err ==> r->Err_0 == StdError::InvalidUtf8
        }),
{
    let start = calc_range_start_str(start_after);
    let asked: u32 = match limit {
        Some(limit) => limit,
        None => DEFAULT_LIMIT,
    };
    let count: usize = if asked <= MAX_LIMIT {
        asked as usize
    } else {
        MAX_LIMIT as usize
    };
    assert(count as nat == page_limit(limit));
    let ghost start_key = range_start(start_after);
    let ghost page = select_page(entries@, start_key, count as nat);
    let ghost mut taken: Seq<(Vec<u8>, NameState)> = Seq::empty();
    let mut names: Vec<(String, NameState)> = Vec::new();
    let mut i: usize = 0;
    assert(entries@.skip(0) =~= entries@);
    while i < entries.len() && names.len() < count
        invariant
            i <= entries.len(),
            names.len() <= count,
            names.len() == taken.len(),
            count as nat == page_limit(limit),
            start_key == range_start(start_after),
            match start {
                Some(key) => start_key == Some(key@),
                None => start_key is None,
            },
            page == select_page(entries@, start_key, count as nat),
            page == taken + select_page(
                entries@.skip(i as int),
                start_key,
                (count - names.len()) as nat,
            ),
            names_of_page(names@, taken),
            forall|j: int| 0 <= j < taken.len() ==> valid_utf8(#[trigger] taken[j].0@),
        decreases entries.len() - i,
    {
        let ghost rest = entries@.skip(i as int);
        assert(rest[0] == entries@[i as int]);
        assert(rest.skip(1) =~= entries@.skip(i + 1));
        let before_start = match &start {
            Some(key) => bytes_less(&entries[i].0, key),
            None => false,
        };
        if !before_start {
            let ghost old_taken = taken;
            let ghost old_names = names@;
            proof {
                taken = taken.push(entries@[i as int]);
                assert(page =~= taken + select_page(
                    entries@.skip(i + 1),
                    start_key,
                    (count - names.len() - 1) as nat,
                ));
            }
            let name = match string_from_utf8(clone_bytes(&entries[i].0)) {
                Some(name) => name,
                None => {
                    assert(old_taken.len() < page.len());
                    assert(page[old_taken.len() as int] == entries@[i as int]);
                    assert(!valid_utf8(page[old_taken.len() as int].0@));
                    return Err(StdError::InvalidUtf8);
                },
            };
            names.push((name, entries[i].1.copy()));
            assert forall|j: int| 0 <= j < taken.len() implies (#[trigger] names@[j]).0@
                == decode_utf8(taken[j].0@) && names@[j].1 == taken[j].1 by {
                if j < old_taken.len() {
                    assert(names@[j] == old_names[j]);
                    assert(taken[j] == old_taken[j]);
                }
            }
        }
        i += 1;
    }
    proof {
        let tail = select_page(entries@.skip(i as int), start_key, (count - names.len()) as nat);
        assert(tail =~= Seq::empty());
        assert(page =~= taken);
    }
    Ok(names)
}

/// A copy of an optional address.
pub fn clone_option_addr(addr: &Option<Addr>) -> (r: Option<Addr>)
    ensures
        r == *addr,
{
    match addr {
        Some(a) => Some(a.clone()),
        None => None,
    }
}

/// The address as a sequence of characters, where there is one.
pub open spec fn option_addr_view(addr: Option<Addr>) -> Option<Seq<char>> {
    match addr {
        Some(a) => Some(a@),
        None => None,
    }
}

/// Whether two optional addresses are the same.
pub fn option_addr_eq(a: &Option<Addr>, b: &Option<Addr>) -> (r: bool)
    ensures
        r == (option_addr_view(*a) == option_addr_view(*b)),
{
    match a {
        Some(x) => match b {
            Some(y) => *x == *y,
            None => false,
        },
        None => match b {
            Some(_) => false,
            None => true,
        },
    }
}

#[derive(Clone, Debug, PartialEq, Eq)]
pub struct Config {
    /// Collector of funds
    pub collector_addr: Addr,
    /// Stablecoin denomination
    pub stable_denom: String,
    /// Minimum number of seconds to allow bidding for
    pub min_lease_secs: Timedelta,
    /// Maximum number of seconds to allow bidding for at once
    pub max_lease_secs: Timedelta,
    /// Number of seconds to allow counter-bids
    pub counter_delay_secs: Timedelta,
    /// Number of transition delay seconds after successful counter-bid
    pub transition_delay_secs: Timedelta,
    /// Number of seconds until a new bid can start
    pub bid_delay_secs: Timedelta,
}

#[derive(Clone, Debug, PartialEq, Eq)]
pub struct NameState {
    /// Owner of the name
    pub owner: Addr,
    /// Controller of the name
    pub controller: Option<Addr>,
    /// Timestamp from where transition delay is calculated from
    pub transition_reference_time: Timestamp,
    /// Amount of stablecoin per RATE_SEC_DENOM charged
    pub rate: u128,
    /// Timestamp when lease begun
    pub begin_time: Timestamp,
    /// Deposit when lease begun
    pub begin_deposit: u128,
    /// Previous owner
    pub previous_owner: Option<Addr>,
    /// Previous transition reference timestamp
    pub previous_transition_reference_time: Timestamp,
}

#[derive(Clone, Debug, PartialEq, Eq)]
pub enum OwnerStatus {
    CounterDelay { name_owner: Option<Addr>, bid_owner: Addr, transition_reference_time: Timestamp },
    TransitionDelay { owner: Addr, transition_reference_time: Timestamp },
    Valid { owner: Addr, transition_reference_time: Timestamp },
    Expired { expire_time: Timestamp, transition_reference_time: Timestamp },
}

impl Config {
    /// Whether the configuration is one that the contract accepts: the
    /// shortest lease is not longer than the longest.
    pub open spec fn is_valid(&self) -> bool {
        self.min_lease_secs.0 <= self.max_lease_secs.0
    }
}

impl NameState {
    /// A copy of the record.
    pub fn copy(&self) -> (r: NameState)
        ensures
            r == *self,
    {
        NameState {
            owner: self.owner.clone(),
            controller: clone_option_addr(&self.controller),
            transition_reference_time: self.transition_reference_time,
            rate: self.rate,
            begin_time: self.begin_time,
            begin_deposit: self.begin_deposit,
            previous_owner: clone_option_addr(&self.previous_owner),
            previous_transition_reference_time: self.previous_transition_reference_time,
        }
    }

    /// Seconds from the begin of the lease to `current_time`, unless the
    /// lease begins later.
    pub open spec fn spec_seconds_spent_since_bid(&self, current_time: Timestamp) -> Option<
        Timedelta,
    > {
        if current_time.0 >= self.begin_time.0 {
            Some(Timedelta((current_time.0 - self.begin_time.0) as u64))
        } else {
            None
        }
    }

    /// Return seconds spent since bid was won
    pub fn seconds_spent_since_bid(&self, current_time: Timestamp) -> (r: Option<Timedelta>)
        ensures
            r == self.spec_seconds_spent_since_bid(current_time),
    {
        match current_time.checked_sub(self.begin_time) {
            Ok(spent) => Some(spent),
            Err(_) => None,
        }
    }

    /// Seconds from the transition reference to `current_time`, unless the
    /// reference is later.
    pub open spec fn spec_seconds_spent_since_transition(&self, current_time: Timestamp) -> Option<
        Timedelta,
    > {
        if current_time.0 >= self.transition_reference_time.0 {
            Some(Timedelta((current_time.0 - self.transition_reference_time.0) as u64))
        } else {
            None
        }
    }

    /// Return seconds spent since transition from previous owner
    pub fn seconds_spent_since_transition(&self, current_time: Timestamp) -> (r: Option<Timedelta>)
        ensures
            r == self.spec_seconds_spent_since_transition(current_time),
    {
        match current_time.checked_sub(self.transition_reference_time) {
            Ok(spent) => Some(spent),
            Err(_) => None,
        }
    }

    /// When the counter delay ends: the counter delay after the begin of the
    /// lease.
    pub open spec fn spec_counter_delay_end(&self, config: &Config) -> Timestamp {
        Timestamp((self.begin_time.0 + config.counter_delay_secs.0) as u64)
    }

    /// Whether every delay of the record ends within representable time.
    pub open spec fn delays_fit(&self, config: &Config) -> bool {
        &&& self.begin_time.0 + config.counter_delay_secs.0 <= u64::MAX
        &&& self.begin_time.0 + self.bid_span(config) <= u64::MAX
        &&& !self.transition_reference_time.is_zero() ==> self.transition_reference_time.0
            + Self::transition_span(config) <= u64::MAX
    }

    /// Whether every delay of the record ends within representable time.
    pub fn check_delays_fit(&self, config: &Config) -> (r: bool)
        ensures
            r == self.delays_fit(config),
    {
        let last: u128 = u64::MAX as u128;
        let begin_time: u128 = self.begin_time.value() as u128;
        let counter_delay: u128 = config.counter_delay_secs.value() as u128;
        let bid_span: u128 = if self.rate != 0 {
            counter_delay + config.bid_delay_secs.value() as u128
        } else {
            0
        };
        let transition_fits = self.transition_reference_time.is_zero()
            || self.transition_reference_time.value() as u128 + counter_delay
            + config.transition_delay_secs.value() as u128 <= last;
        begin_time + counter_delay <= last && begin_time + bid_span <= last && transition_fits
    }

    /// Return timestamp when counter delay ends
    pub fn counter_delay_end(&self, config: &Config) -> (r: Timestamp)
        requires
            self.begin_time.0 + config.counter_delay_secs.0 <= u64::MAX,
        ensures
            r == self.spec_counter_delay_end(config),
    {
        self.begin_time + config.counter_delay_secs
    }

    /// Seconds after the transition reference at which the transition delay
    /// ends.
    pub open spec fn transition_span(config: &Config) -> int {
        config.counter_delay_secs.0 + config.transition_delay_secs.0
    }

    /// End of the transition delay: the begin time for a name that was
    /// never held before, whose transition reference is zero.
    pub open spec fn spec_transition_delay_end(&self, config: &Config) -> Timestamp {
        if self.transition_reference_time.is_zero() {
            self.begin_time
        } else {
            Timestamp((self.transition_reference_time.0 + Self::transition_span(config)) as u64)
        }
    }

    /// Return timestamp when transition delay ends
    pub fn transition_delay_end(&self, config: &Config) -> (r: Timestamp)
        requires
            !self.transition_reference_time.is_zero() ==> self.transition_reference_time.0
                + Self::transition_span(config) <= u64::MAX,
        ensures
            r == self.spec_transition_delay_end(config),
    {
        if self.transition_reference_time.is_zero() {
            // Special case for new bids
            self.begin_time
        } else {
            self.transition_reference_time + config.counter_delay_secs
                + config.transition_delay_secs
        }
    }

    /// Seconds after the begin of a lease during which it is closed for
    /// bids or open for counter-bids only: none at rate zero.
    pub open spec fn bid_span(&self, config: &Config) -> int {
        if self.rate != 0 {
            config.counter_delay_secs.0 + config.bid_delay_secs.0
        } else {
            0
        }
    }

    /// When the bid delay ends: the counter delay and the bid delay after the
    /// begin of the lease, and with it at rate zero.
    pub open spec fn spec_bid_delay_end(&self, config: &Config) -> Timestamp {
        Timestamp((self.begin_time.0 + self.bid_span(config)) as u64)
    }

    /// Return timestamp when bid delay ends
    ///
    /// Note: There is no effective bid delay when the rate is zero.
    pub fn bid_delay_end(&self, config: &Config) -> (r: Timestamp)
        requires
            self.begin_time.0 + self.bid_span(config) <= u64::MAX,
        ensures
            r == self.spec_bid_delay_end(config),
    {
        let delay = if self.rate != 0 {
            config.counter_delay_secs + config.bid_delay_secs
        } else {
            Timedelta::zero()
        };
        self.begin_time + delay
    }

    /// Seconds from the begin of the lease that the deposit pays for.
    pub open spec fn spec_max_seconds(&self) -> Option<Timedelta> {
        spec_seconds_from_deposit(self.begin_deposit, self.rate)
    }

    /// Return number of seconds since beginning that the deposit allows for
    pub fn max_seconds(&self) -> (r: Option<Timedelta>)
        ensures
            r == self.spec_max_seconds(),
    {
        seconds_from_deposit(self.begin_deposit, self.rate)
    }

    /// When the deposit is used up: never at rate zero, and not within
    /// representable time where `None` as well.
    pub open spec fn spec_expire_time(&self) -> Option<Timestamp> {
        if self.rate > 0 && self.begin_time.0 + lease_seconds(
            self.begin_deposit as nat,
            self.rate as nat,
        ) <= u64::MAX {
            Some(
                Timestamp(
                    (self.begin_time.0 + lease_seconds(
                        self.begin_deposit as nat,
                        self.rate as nat,
                    )) as u64,
                ),
            )
        } else {
            None
        }
    }

    /// Return timestamp when ownership expires
    pub fn expire_time(&self) -> (r: Option<Timestamp>)
        ensures
            r == self.spec_expire_time(),
    {
        match self.max_seconds() {
            Some(max_seconds) => match self.begin_time.checked_add(max_seconds) {
                Ok(expire_time) => Some(expire_time),
                Err(_) => None,
            },
            None => None,
        }
    }

    /// Deposit left at `current_time`: the begin deposit less the rent spent
    /// since, rounded up, and never below zero. Zero before the begin time.
    pub open spec fn spec_current_deposit(&self, current_time: Timestamp) -> u128 {
        if current_time.0 < self.begin_time.0 {
            0
        } else {
            let spent = deposit_ceil(
                (current_time.0 - self.begin_time.0) as nat,
                self.rate as nat,
            );
            if spent >= self.begin_deposit {
                0
            } else {
                (self.begin_deposit - spent) as u128
            }
        }
    }

    /// Return current remaining deposit
    pub fn current_deposit(&self, current_time: Timestamp) -> (r: u128)
        ensures
            r == self.spec_current_deposit(current_time),
    {
        let seconds_spent = match self.seconds_spent_since_bid(current_time) {
            Some(seconds_spent) => seconds_spent,
            None => { return 0; },
        };
        match deposit_from_seconds_ceil(seconds_spent, self.rate) {
            Some(deposit_spent) => self.begin_deposit.saturating_sub(deposit_spent),
            None => 0,
        }
    }

    /// The most that the deposit may be at `current_time`: what the longest
    /// lease from now costs on top of the time spent. `Some(0)` before the
    /// begin time, `None` where the limit is beyond 128 bits.
    pub open spec fn spec_max_allowed_deposit(
        &self,
        config: &Config,
        current_time: Timestamp,
    ) -> Option<u128> {
        if current_time.0 < self.begin_time.0 {
            Some(0)
        } else {
            let limit = deposit_floor(
                (config.max_lease_secs.0 + (current_time.0 - self.begin_time.0)) as nat,
                self.rate as nat,
            );
            if limit <= u128::MAX {
                Some(limit as u128)
            } else {
                None
            }
        }
    }

    /// Return max allowed deposit for the name
    pub fn max_allowed_deposit(&self, config: &Config, current_time: Timestamp) -> (r: Option<u128>)
        ensures
            r == self.spec_max_allowed_deposit(config, current_time),
    {
        let seconds_spent = match self.seconds_spent_since_bid(current_time) {
            Some(seconds_spent) => seconds_spent,
            None => { return Some(0); },
        };
        let max_seconds_from_beginning: u128 = config.max_lease_secs.value() as u128
            + seconds_spent.value() as u128;
        checked_multiply_ratio(self.rate, max_seconds_from_beginning, RATE_SEC_DENOM as u128)
    }

    /// Whether the times of the record are in the order in which the
    /// contract writes them: no transition reference is later than the one
    /// that followed it, nor later than the begin of the lease.
    pub open spec fn times_in_order(&self) -> bool {
        self.previous_transition_reference_time.0 <= self.transition_reference_time.0
            <= self.begin_time.0
    }

    /// Whether the deposit is used up at `current_time`. Never at rate zero.
    pub open spec fn is_expired(&self, current_time: Timestamp) -> bool {
        current_time.0 < self.begin_time.0 || (self.rate > 0 && current_time.0
            - self.begin_time.0 >= lease_seconds(self.begin_deposit as nat, self.rate as nat))
    }

    /// Seconds from the transition reference to `current_time`, zero where
    /// the reference is the later one.
    pub open spec fn seconds_since_transition(&self, current_time: Timestamp) -> int {
        if current_time.0 >= self.transition_reference_time.0 {
            current_time.0 - self.transition_reference_time.0
        } else {
            0
        }
    }

    /// The phase of the name at `current_time`.
    pub open spec fn spec_owner_status(&self, config: &Config, current_time: Timestamp) -> OwnerStatus {
        if current_time.0 < self.begin_time.0 {
            OwnerStatus::Expired {
                expire_time: Timestamp(0),
                transition_reference_time: self.transition_reference_time,
            }
        } else if self.is_expired(current_time) {
            OwnerStatus::Expired {
                expire_time: Timestamp(
                    (self.begin_time.0 + lease_seconds(
                        self.begin_deposit as nat,
                        self.rate as nat,
                    )) as u64,
                ),
                transition_reference_time: self.transition_reference_time,
            }
        } else if current_time.0 - self.begin_time.0 < config.counter_delay_secs.0 {
            OwnerStatus::CounterDelay {
                name_owner: self.previous_owner,
                bid_owner: self.owner,
                transition_reference_time: self.previous_transition_reference_time,
            }
        } else if self.seconds_since_transition(current_time) < Self::transition_span(config) {
            OwnerStatus::TransitionDelay {
                owner: self.owner,
                transition_reference_time: self.transition_reference_time,
            }
        } else {
            OwnerStatus::Valid {
                owner: self.owner,
                transition_reference_time: self.transition_reference_time,
            }
        }
    }

    /// Return owner status
    pub fn owner_status(&self, config: &Config, current_time: Timestamp) -> (r: OwnerStatus)
        ensures
            r == self.spec_owner_status(config, current_time),
    {
        let seconds_spent_since_bid = match self.seconds_spent_since_bid(current_time) {
            Some(seconds_spent) => seconds_spent,
            None => {
                return OwnerStatus::Expired {
                    expire_time: Timestamp::zero(),
                    transition_reference_time: self.transition_reference_time,
                };
            },
        };
        if let Some(max_seconds) = self.max_seconds() {
            if seconds_spent_since_bid.value() >= max_seconds.value() {
                return OwnerStatus::Expired {
                    expire_time: self.begin_time + max_seconds,
                    transition_reference_time: self.transition_reference_time,
                };
            }
        }
        // A transition reference in the future counts as no time spent.
        let seconds_spent_since_transition: u64 = match self.seconds_spent_since_transition(
            current_time,
        ) {
            Some(seconds_spent) => seconds_spent.value(),
            None => 0,
        };
        if seconds_spent_since_bid.value() < config.counter_delay_secs.value() {
            OwnerStatus::CounterDelay {
                name_owner: clone_option_addr(&self.previous_owner),
                bid_owner: self.owner.clone(),
                transition_reference_time: self.previous_transition_reference_time,
            }
        } else if (seconds_spent_since_transition as u128) < config.counter_delay_secs.value() as u128
            + config.transition_delay_secs.value() as u128 {
            OwnerStatus::TransitionDelay {
                owner: self.owner.clone(),
                transition_reference_time: self.transition_reference_time,
            }
        } else {
            OwnerStatus::Valid {
                owner: self.owner.clone(),
                transition_reference_time: self.transition_reference_time,
            }
        }
    }
}

impl OwnerStatus {
    /// Whether `sender` may set the rate: the owner, once the counter delay
    /// is over.
    pub open spec fn spec_can_set_rate(&self, sender: Seq<char>) -> bool {
        match *self {
            OwnerStatus::Valid { owner, .. } | OwnerStatus::TransitionDelay { owner, .. } => sender
                == owner@,
            _ => false,
        }
    }

    /// Whether `sender` may set the rate in this phase.
    pub fn can_set_rate(&self, sender: &Addr) -> (r: bool)
        ensures
            r == self.spec_can_set_rate(sender@),
    {
        match self {
            OwnerStatus::Valid { owner, .. } => *sender == *owner,
            OwnerStatus::TransitionDelay { owner, .. } => *sender == *owner,
            _ => false,
        }
    }

    /// Whether `sender` may transfer the name: its owner, who during a counter
    /// delay is the owner before the bid.
    pub open spec fn spec_can_transfer_name_owner(&self, sender: Seq<char>) -> bool {
        match *self {
            OwnerStatus::Valid { owner, .. } | OwnerStatus::TransitionDelay { owner, .. } => sender
                == owner@,
            OwnerStatus::CounterDelay { name_owner: Some(owner), .. } => sender == owner@,
            _ => false,
        }
    }

    /// Whether `sender` may transfer the name in this phase.
    pub fn can_transfer_name_owner(&self, sender: &Addr) -> (r: bool)
        ensures
            r == self.spec_can_transfer_name_owner(sender@),
    {
        match self {
            OwnerStatus::Valid { owner, .. } => *sender == *owner,
            OwnerStatus::CounterDelay { name_owner: Some(owner), .. } => *sender == *owner,
            OwnerStatus::TransitionDelay { owner, .. } => *sender == *owner,
            _ => false,
        }
    }

    /// Whether `sender` may transfer the bid: its holder, while it can be
    /// countered.
    pub open spec fn spec_can_transfer_bid_owner(&self, sender: Seq<char>) -> bool {
        match *self {
            OwnerStatus::CounterDelay { bid_owner, .. } => sender == bid_owner@,
            _ => false,
        }
    }

    /// Whether `sender` may transfer the bid in this phase.
    pub fn can_transfer_bid_owner(&self, sender: &Addr) -> (r: bool)
        ensures
            r == self.spec_can_transfer_bid_owner(sender@),
    {
        match self {
            OwnerStatus::CounterDelay { bid_owner, .. } => *sender == *bid_owner,
            _ => false,
        }
    }

    /// Whether `sender` may name the controller: who may transfer the name.
    pub open spec fn spec_can_set_controller(&self, sender: Seq<char>) -> bool {
        self.spec_can_transfer_name_owner(sender)
    }

    /// Whether `sender` may name the controller in this phase.
    pub fn can_set_controller(&self, sender: &Addr) -> (r: bool)
        ensures
            r == self.spec_can_set_controller(sender@),
    {
        match self {
            OwnerStatus::Valid { owner, .. } => *sender == *owner,
            OwnerStatus::CounterDelay { name_owner: Some(owner), .. } => *sender == *owner,
            OwnerStatus::TransitionDelay { owner, .. } => *sender == *owner,
            _ => false,
        }
    }
}

} // verus!
