use sp_arithmetic::traits::One as _;
use sp_arithmetic::FixedPointNumber as _;
use vstd::prelude::*;

verus! {

/// The accuracy of an unsigned 128-bit fixed-point number: its inner value
/// counts units of one part in `FIXED_DIV`.
pub const FIXED_DIV: u128 = 1_000_000_000_000_000_000u128;

/// An unsigned 128-bit fixed-point number, held as its inner value:
/// the number is `inner / FIXED_DIV`.
#[derive(Clone, Copy, Debug, PartialEq, Eq, Structural)]
pub struct Fixed {
    pub inner: u128,
}

/// A price of one currency in another.
pub type Price = Fixed;

/// An exchange rate between a staking currency and its liquid form.
pub type ExchangeRate = Fixed;

/// The inner value of `n / d` as a fixed-point number, rounded down and
/// saturating at the largest inner value.
pub open spec fn rational_inner(n: u128, d: u128) -> int
    recommends
        d > 0,
{
    let exact = (n as int) * (FIXED_DIV as int) / (d as int);
    if exact <= u128::MAX { exact } else { u128::MAX as int }
}

/// `FixedU128::one()` of sp-arithmetic, taken by its inner value: the source
/// builds it from its accuracy, `10^18`.
#[verifier::external_body]
fn fixed_one_inner() -> (r: u128)
    ensures
        r == FIXED_DIV,
{
    sp_arithmetic::FixedU128::one().into_inner()
}

/// `FixedU128::saturating_from_rational` of sp-arithmetic on two `u128`s,
/// taken by its inner value. The source multiplies `n` by the accuracy and
/// divides by `d` rounding down (unsigned operands round toward zero), and
/// gives the largest value where that does not fit; it panics on `d == 0`,
/// which `requires` leaves out.
#[verifier::external_body]
fn fixed_from_rational_inner(n: u128, d: u128) -> (r: u128)
    requires
        d > 0,
    ensures
        r == rational_inner(n, d),
{
    sp_arithmetic::FixedU128::saturating_from_rational(n, d).into_inner()
}

impl Fixed {
    /// The number one.
    pub fn one() -> (r: Fixed)
        ensures
            r.inner == FIXED_DIV,
    {
        Fixed { inner: fixed_one_inner() }
    }

    /// The number `n / d`, rounded down to the accuracy and saturating.
    pub fn saturating_from_rational(n: u128, d: u128) -> (r: Fixed)
        requires
            d > 0,
        ensures
            r.inner == rational_inner(n, d),
    {
        Fixed { inner: fixed_from_rational_inner(n, d) }
    }
}

} // verus!
