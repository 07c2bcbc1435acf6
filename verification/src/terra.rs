//! Tax on transfers of native coin: a rate on the amount sent, capped per
//! denomination.

use crate::errors::StdError;
use crate::host::Coin;
use crate::math::{checked_multiply_ratio, ratio, Decimal, DECIMAL_FRACTIONAL};
use vstd::prelude::*;

verus! {

/// The treasury's answers to the two tax queries: the tax rate, and the cap
/// of each denomination that has one.
#[derive(Clone, Debug, PartialEq, Eq)]
pub struct TaxQuerier {
    pub rate: Decimal,
    pub caps: Vec<Coin>,
}

/// The cap of `denom`: that of the first entry for it, zero if none.
pub open spec fn tax_cap(caps: Seq<Coin>, denom: Seq<char>) -> u128
    decreases caps.len(),
{
    if caps.len() == 0 {
        0
    } else if caps[0].denom@ == denom {
        caps[0].amount
    } else {
        tax_cap(caps.skip(1), denom)
    }
}

/// Tax withheld from a transfer of `amount`:
/// `min(amount - floor(amount / (1 + rate)), cap)`, the rate in atomics.
pub open spec fn tax_amount(rate: nat, cap: nat, amount: nat) -> nat {
    let kept = ratio(amount, DECIMAL_FRACTIONAL as nat, rate + DECIMAL_FRACTIONAL as nat);
    let tax = (amount - kept) as nat;
    if tax <= cap {
        tax
    } else {
        cap
    }
}

/// Tax to send on top of `amount`: `min(floor(amount * rate), cap)`.
pub open spec fn added_tax_amount(rate: nat, cap: nat, amount: nat) -> nat {
    let tax = ratio(amount, rate, DECIMAL_FRACTIONAL as nat);
    if tax <= cap {
        tax
    } else {
        cap
    }
}

/// What is kept of `amount` in `denom` when its tax is withheld; the
/// amount itself for `uluna`, which is not taxed.
pub open spec fn after_tax(querier: &TaxQuerier, denom: Seq<char>, amount: u128) -> u128 {
    if denom == "uluna"@ {
        amount
    } else {
        (amount - tax_amount(
            querier.rate.0 as nat,
            tax_cap(querier.caps@, denom) as nat,
            amount as nat,
        )) as u128
    }
}

/// Whether the tax of this querier can be computed in 128 bits.
pub open spec fn tax_rate_fits(querier: &TaxQuerier) -> bool {
    querier.rate.0 + DECIMAL_FRACTIONAL <= u128::MAX
}

/// The coin that is left of `amount` in `denom` after tax, where the tax
/// can be computed.
pub open spec fn spec_deduct_coin_tax(querier: &TaxQuerier, denom: String, amount: u128) -> Result<
    Coin,
    StdError,
> {
    if denom@ == "uluna"@ || tax_rate_fits(querier) {
        Ok(Coin { denom, amount: after_tax(querier, denom@, amount) })
    } else {
        Err(StdError::Overflow)
    }
}

/// Dividing by more than one never yields more than the amount.
pub proof fn lemma_kept_at_most_amount(rate: nat, amount: nat)
    ensures
        ratio(amount, DECIMAL_FRACTIONAL as nat, rate + DECIMAL_FRACTIONAL as nat) <= amount,
{
    let f = DECIMAL_FRACTIONAL as int;
    let d = rate + f;
    assert(amount * f <= amount * d) by (nonlinear_arith)
        requires
            0 <= f <= d,
            0 <= amount,
    ;
    vstd::arithmetic::div_mod::lemma_div_is_ordered(amount * f, amount * d, d);
    vstd::arithmetic::div_mod::lemma_div_multiples_vanish(amount as int, d);
    assert(amount * d == d * amount) by (nonlinear_arith);
}

impl TaxQuerier {
    /// The answers of a treasury with the tax rate `rate` and the caps `caps`.
    pub fn new(rate: Decimal, caps: Vec<Coin>) -> (r: TaxQuerier)
        ensures
            r.rate == rate,
            r.caps == caps,
    {
        TaxQuerier { rate, caps }
    }

    /// The tax rate.
    pub fn query_tax_rate(&self) -> (r: Decimal)
        ensures
            r == self.rate,
    {
        self.rate
    }

    /// The tax cap of `denom`, zero where none is known.
    pub fn query_tax_cap(&self, denom: &String) -> (r: u128)
        ensures
            r == tax_cap(self.caps@, denom@),
    {
        let mut i: usize = 0;
        assert(self.caps@.skip(0) =~= self.caps@);
        while i < self.caps.len()
            invariant
                i <= self.caps.len(),
                tax_cap(self.caps@, denom@) == tax_cap(self.caps@.skip(i as int), denom@),
            decreases self.caps.len() - i,
        {
            if self.caps[i].denom == *denom {
                assert(self.caps@.skip(i as int)[0] == self.caps@[i as int]);
                return self.caps[i].amount;
            }
            assert(self.caps@.skip(i as int).skip(1) =~= self.caps@.skip(i + 1));
            i += 1;
        }
        0
    }
}

/// Calculate tax that is subtracted from the sent amount
pub fn calculate_tax(querier: &TaxQuerier, denom: &String, amount: u128) -> (r: Result<
    u128,
    StdError,
>)
    ensures
        !tax_rate_fits(querier) ==> r == Err::<u128, StdError>(StdError::Overflow),
        tax_rate_fits(querier) ==> r is Ok && r->Ok_0 == tax_amount(
            querier.rate.0 as nat,
            tax_cap(querier.caps@, denom@) as nat,
            amount as nat,
        ),
        r is Ok ==> r->Ok_0 <= amount,
{
    let tax_rate = querier.query_tax_rate();
    let tax_cap = querier.query_tax_cap(denom);
    let divisor = match tax_rate.numerator().checked_add(DECIMAL_FRACTIONAL) {
        Some(divisor) => divisor,
        None => { return Err(StdError::Overflow); },
    };
    proof {
        lemma_kept_at_most_amount(tax_rate.0 as nat, amount as nat);
    }
    // a * (1 - (1 / (t + 1)))
    let kept = match checked_multiply_ratio(amount, DECIMAL_FRACTIONAL, divisor) {
        Some(kept) => kept,
        None => { return Err(StdError::Overflow); },
    };
    let tax: u128 = amount - kept;
    if tax <= tax_cap {
        Ok(tax)
    } else {
        Ok(tax_cap)
    }
}

/// Calculate tax to be sent in addition in order for recipient to receive amount
pub fn calculate_added_tax(querier: &TaxQuerier, denom: &String, amount: u128) -> (r: Result<
    u128,
    StdError,
>)
    ensures
        r is Ok ==> r->Ok_0 == added_tax_amount(
            querier.rate.0 as nat,
            tax_cap(querier.caps@, denom@) as nat,
            amount as nat,
        ),
        r is Err ==> r->Err_0 == StdError::Overflow,
        r is Err <==> ratio(amount as nat, querier.rate.0 as nat, DECIMAL_FRACTIONAL as nat)
            > u128::MAX,
{
    let tax_rate = querier.query_tax_rate();
    let tax_cap = querier.query_tax_cap(denom);
    match tax_rate.checked_mul_amount(amount) {
        Some(tax) => {
            if tax <= tax_cap {
                Ok(tax)
            } else {
                Ok(tax_cap)
            }
        },
        None => Err(StdError::Overflow),
    }
}

/// Return amount after deducting tax.
///
/// This is useful when sending a fixed amount to figure out how much to put in
/// the send message for the amount plus taxes to sum to the fixed amount.
pub fn deduct_tax(querier: &TaxQuerier, denom: &String, amount: u128) -> (r: Result<u128, StdError>)
    ensures
        !tax_rate_fits(querier) ==> r == Err::<u128, StdError>(StdError::Overflow),
        tax_rate_fits(querier) ==> r is Ok && r->Ok_0 == amount - tax_amount(
            querier.rate.0 as nat,
            tax_cap(querier.caps@, denom@) as nat,
            amount as nat,
        ),
{
    match calculate_tax(querier, denom, amount) {
        Ok(tax) => Ok(amount - tax),
        Err(e) => Err(e),
    }
}

/// Return Coin after deducting tax.
///
/// This is useful when sending a fixed amount to figure out how much to put in
/// the send message for the amount plus taxes to sum to the fixed amount.
pub fn deduct_coin_tax(querier: &TaxQuerier, coin: Coin) -> (r: Result<Coin, StdError>)
    ensures
        r == spec_deduct_coin_tax(querier, coin.denom, coin.amount),
{
    let luna = "uluna".to_owned();
    if coin.denom == luna {
        Ok(coin)
    } else {
        let amount = match deduct_tax(querier, &coin.denom, coin.amount) {
            Ok(amount) => amount,
            Err(e) => { return Err(e); },
        };
        Ok(Coin { denom: coin.denom, amount })
    }
}

} // verus!
