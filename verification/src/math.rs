//! Integer ratios `value * numerator / denominator` that never lose the
//! intermediate product.

use cosmwasm_std::Uint128;
use vstd::arithmetic::div_mod::{lemma_fundamental_div_mod, lemma_hoist_over_denominator};
use vstd::prelude::*;

verus! {

/// `floor(value * numerator / denominator)` over the naturals.
pub open spec fn ratio(value: nat, numerator: nat, denominator: nat) -> nat {
    (value * numerator) / denominator
}

/// `ceil(value * numerator / denominator)` over the naturals.
pub open spec fn ratio_ceil(value: nat, numerator: nat, denominator: nat) -> nat {
    ((value * numerator + denominator - 1) / (denominator as int)) as nat
}

/// Calls `cosmwasm_std::Uint128::multiply_ratio`, which multiplies into 256
/// bits, divides, and panics when the denominator is zero or the quotient
/// does not fit 128 bits. Both are excluded here; the result is then the
/// floor of `value * numerator / denominator`.
#[verifier::external_body]
fn uint128_multiply_ratio(value: u128, numerator: u128, denominator: u128) -> (r: u128)
    requires
        denominator > 0,
        ratio(value as nat, numerator as nat, denominator as nat) <= u128::MAX,
    ensures
        r == ratio(value as nat, numerator as nat, denominator as nat),
{
    Uint128::new(value).multiply_ratio(numerator, denominator).u128()
}

/// Splitting `value` by the denominator: the quotient part contributes
/// exact multiples of `numerator`, the remainder part less than one more.
pub proof fn lemma_ratio_split(value: nat, numerator: nat, denominator: nat)
    requires
        denominator > 0,
    ensures
        ratio(value, numerator, denominator) == (value / denominator) * numerator + ratio(
            value % denominator,
            numerator,
            denominator,
        ),
        ratio(value % denominator, numerator, denominator) <= numerator,
        numerator > 0 ==> ratio(value % denominator, numerator, denominator) < numerator,
{
    let d = denominator as int;
    let q = (value / denominator) as int;
    let m = (value % denominator) as int;
    let n = numerator as int;
    lemma_fundamental_div_mod(value as int, d);
    assert(value * n == m * n + (q * n) * d) by (nonlinear_arith)
        requires
            value == d * q + m,
    ;
    lemma_hoist_over_denominator(m * n, q * n, denominator);
    assert(0 <= m < d);
    assert(m * n <= d * n) by (nonlinear_arith)
        requires
            0 <= m < d,
            0 <= n,
    ;
    if n > 0 {
        assert(m * n < n * d) by (nonlinear_arith)
            requires
                0 <= m < d,
                0 < n,
        ;
        vstd::arithmetic::div_mod::lemma_multiply_divide_lt(m * n, d, n);
    } else {
        assert(m * n == 0) by (nonlinear_arith)
            requires
                n == 0,
        ;
    }
    assert(0 <= m * n) by (nonlinear_arith)
        requires
            0 <= m,
            0 <= n,
    ;
}

/// What `checked_multiply_ratio` returns: the floor of
/// `value * numerator / denominator` where the denominator is not zero and
/// the floor fits 128 bits.
pub open spec fn spec_checked_multiply_ratio(value: u128, numerator: u128, denominator: u128) -> Option<
    u128,
> {
    if denominator > 0 && ratio(value as nat, numerator as nat, denominator as nat) <= u128::MAX {
        Some(ratio(value as nat, numerator as nat, denominator as nat) as u128)
    } else {
        None
    }
}

/// `floor(value * numerator / denominator)`, or `None` when the
/// denominator is zero or the floor does not fit 128 bits. The product
/// itself may be as wide as 256 bits.
pub fn checked_multiply_ratio(value: u128, numerator: u128, denominator: u128) -> (r: Option<u128>)
    ensures
        r == spec_checked_multiply_ratio(value, numerator, denominator),
{
    if denominator == 0 {
        return None;
    }
    let whole: u128 = value / denominator;
    let rest: u128 = value % denominator;
    proof {
        lemma_ratio_split(value as nat, numerator as nat, denominator as nat);
    }
    let low: u128 = uint128_multiply_ratio(rest, numerator, denominator);
    match whole.checked_mul(numerator) {
        Some(high) => high.checked_add(low),
        None => None,
    }
}

/// One whole unit of a `Decimal`, in atomics.
pub const DECIMAL_FRACTIONAL: u128 = 1_000_000_000_000_000_000;

/// A fixed-point decimal value with 18 fractional digits, held as its
/// atomics: `Decimal(1_000_000_000_000_000_000)` is 1.0.
#[derive(Copy, Clone, Debug, PartialEq, Eq, Structural, PartialOrd, Ord, Hash)]
pub struct Decimal(pub u128);

impl Decimal {
    /// Create a 1.0 Decimal
    pub fn one() -> (r: Decimal)
        ensures
            r == Decimal(DECIMAL_FRACTIONAL),
    {
        Decimal(DECIMAL_FRACTIONAL)
    }

    /// Create a 0.0 Decimal
    pub fn zero() -> (r: Decimal)
        ensures
            r == Decimal(0),
    {
        Decimal(0)
    }

    /// Returns the ratio (numerator / denominator) as a Decimal, rounded
    /// down to the last fractional digit; `None` where the denominator is
    /// zero or the ratio is too large.
    pub fn from_ratio(numerator: u128, denominator: u128) -> (r: Option<Decimal>)
        ensures
            r == (if denominator > 0 && ratio(
                numerator as nat,
                DECIMAL_FRACTIONAL as nat,
                denominator as nat,
            ) <= u128::MAX {
                Some(
                    Decimal(
                        ratio(numerator as nat, DECIMAL_FRACTIONAL as nat, denominator as nat) as u128,
                    ),
                )
            } else {
                None
            }),
    {
        match checked_multiply_ratio(numerator, DECIMAL_FRACTIONAL, denominator) {
            Some(atomics) => Some(Decimal(atomics)),
            None => None,
        }
    }

    /// The value in atomics.
    pub open spec fn spec_numerator(&self) -> u128 {
        self.0
    }

    /// The value in atomics.
    #[verifier::when_used_as_spec(spec_numerator)]
    pub fn numerator(&self) -> (r: u128)
        ensures
            r == self.0,
    {
        self.0
    }

    /// The atomics of one whole unit.
    pub fn denominator(&self) -> (r: u128)
        ensures
            r == DECIMAL_FRACTIONAL,
    {
        DECIMAL_FRACTIONAL
    }

    /// Whether the value is zero.
    pub open spec fn spec_is_zero(&self) -> bool {
        self.0 == 0
    }

    /// Whether the value is zero.
    #[verifier::when_used_as_spec(spec_is_zero)]
    pub fn is_zero(&self) -> (r: bool)
        ensures
            r == (self.0 == 0),
    {
        self.0 == 0
    }

    /// The sum, or `None` where it is too large.
    pub fn checked_add(self, other: Decimal) -> (r: Option<Decimal>)
        ensures
            r == (if self.0 + other.0 <= u128::MAX {
                Some(Decimal((self.0 + other.0) as u128))
            } else {
                None
            }),
    {
        match self.0.checked_add(other.0) {
            Some(atomics) => Some(Decimal(atomics)),
            None => None,
        }
    }

    /// `amount` times this decimal, rounded down to a whole amount; `None`
    /// where it is too large.
    pub fn checked_mul_amount(self, amount: u128) -> (r: Option<u128>)
        ensures
            r == (if ratio(amount as nat, self.0 as nat, DECIMAL_FRACTIONAL as nat) <= u128::MAX {
                Some(ratio(amount as nat, self.0 as nat, DECIMAL_FRACTIONAL as nat) as u128)
            } else {
                None
            }),
    {
        checked_multiply_ratio(amount, self.0, DECIMAL_FRACTIONAL)
    }
}

} // verus!
