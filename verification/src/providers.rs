use crate::currency::CurrencyId;
use crate::fixed::{rational_inner, ExchangeRate, Fixed, Price, FIXED_DIV};
use vstd::prelude::*;

verus! {

/// The relay-chain block number seen by the idle scheduler.
pub struct MockBlockNumberProvider;

impl MockBlockNumberProvider {
    /// Always block zero.
    pub fn current_block_number() -> (r: u32)
        ensures
            r == 0,
    {
        0
    }
}

/// The relay-chain block number seen by the liquid-staking modules, a
/// parameter that holds zero.
pub struct MockRelayBlockNumberProvider;

impl MockRelayBlockNumberProvider {
    /// The value of the parameter.
    pub fn get() -> (r: u32)
        ensures
            r == 0,
    {
        0
    }

    /// The current relay-chain block number: the parameter's value.
    pub fn current_block_number() -> (r: u32)
        ensures
            r == 0,
    {
        Self::get()
    }
}

/// A price source that prices every currency at one.
pub struct MockPriceSource;

impl MockPriceSource {
    /// The price of one currency in another: always one.
    pub fn get_relative_price(_base: CurrencyId, _quote: CurrencyId) -> (r: Option<Price>)
        ensures
            r == Some(Fixed { inner: FIXED_DIV }),
    {
        Some(Fixed::one())
    }

    /// The price of a currency: always one.
    pub fn get_price(_currency_id: CurrencyId) -> (r: Option<Price>)
        ensures
            r == Some(Fixed { inner: FIXED_DIV }),
    {
        Some(Fixed::one())
    }
}

/// An emergency-shutdown switch that is never thrown.
pub struct MockEmergencyShutdown;

impl MockEmergencyShutdown {
    /// Always `false`.
    pub fn is_shutdown() -> (r: bool)
        ensures
            !r,
    {
        false
    }
}

/// Converts EVM gas to block weight one for one.
pub struct GasToWeight;

impl GasToWeight {
    /// The weight of `a` units of gas: `a`.
    pub fn convert(a: u64) -> (r: u64)
        ensures
            r == a,
    {
        a
    }
}

/// A liquid-staking exchange rate fixed at one half.
pub struct MockLiquidStakingExchangeProvider;

impl MockLiquidStakingExchangeProvider {
    /// The exchange rate `1 / 2`.
    pub fn get_exchange_rate() -> (r: ExchangeRate)
        ensures
            r.inner == rational_inner(1, 2),
            r.inner == FIXED_DIV / 2,
    {
        Fixed::saturating_from_rational(1, 2)
    }
}

} // verus!
