use vstd::prelude::*;

verus! {

/// The fixed-point scale of a cosmwasm `Decimal`: 18 decimal places.
pub open spec fn decimal_fractional() -> int {
    1_000_000_000_000_000_000
}

/// The atomics of `Decimal::from_ratio(numerator, denominator)`: the ratio
/// scaled by 10^18, rounded down.
pub open spec fn ratio_atomics(numerator: int, denominator: int) -> int {
    numerator * decimal_fractional() / denominator
}

/// Calls `cosmwasm_std::Decimal::from_ratio(numerator, denominator)` and
/// hands back the decimal's atomics (`Decimal::atomics`, then
/// `Uint128::u128`).  The crate computes `numerator * 10^18 / denominator`
/// with a 256-bit intermediate product and rounds down; it panics on a zero
/// denominator and when the quotient does not fit in 128 bits, which the
/// `requires` rules out.
#[verifier::external_body]
fn decimal_from_ratio_atomics(numerator: u128, denominator: u128) -> (atomics: u128)
    requires
        denominator != 0,
        ratio_atomics(numerator as int, denominator as int) <= u128::MAX,
    ensures
        atomics == ratio_atomics(numerator as int, denominator as int),
{
    cosmwasm_std::Decimal::from_ratio(numerator, denominator).atomics().u128()
}

/// A spot price, as a cosmwasm decimal held by its atomics (the value times
/// 10^18).
#[derive(Clone, Copy, Debug, PartialEq, Eq)]
pub struct Price {
    pub atomics: u128,
}

impl Price {
    /// The price `numerator / denominator`, rounded down to 18 decimal places.
    pub fn from_ratio(numerator: u128, denominator: u128) -> (p: Price)
        requires
            denominator != 0,
            ratio_atomics(numerator as int, denominator as int) <= u128::MAX,
        ensures
            p.atomics == ratio_atomics(numerator as int, denominator as int),
    {
        Price { atomics: decimal_from_ratio_atomics(numerator, denominator) }
    }
}

/// The exchange rate of a shitstrap for a token at `price`.
pub open spec fn rate_of(price_atomics: int) -> int {
    price_atomics * 100
}

/// Exchange rate for a token at `price`: the price's atomics times 100.
pub fn calc_rates(price: Price) -> (rate: u128)
    requires
        rate_of(price.atomics as int) <= u128::MAX,
    ensures
        rate == rate_of(price.atomics as int),
{
    price.atomics * 100
}

} // verus!
