//! A verified model of the precompile test runtime: its accounts and EVM
//! addresses, proxy filters, price and block-number providers, and the
//! genesis plan that sets the test chain up.

pub mod accounts;
pub mod currency;
pub mod fixed;
pub mod genesis;
pub mod providers;
pub mod proxy;
