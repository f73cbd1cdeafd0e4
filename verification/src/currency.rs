use vstd::prelude::*;

verus! {

/// The token symbols that the test runtime trades in.
#[allow(non_camel_case_types)]
#[derive(Clone, Copy, Debug, PartialEq, Eq, Structural, PartialOrd, Ord, Hash)]
pub enum TokenSymbol {
    SEL,
    RENBTC,
    SUSD,
    DOT,
}

/// One side of a liquidity-pool share.
#[derive(Clone, Copy, Debug, PartialEq, Eq, Structural, PartialOrd, Ord, Hash)]
pub enum DexShare {
    Token(TokenSymbol),
}

/// A currency of the test runtime: a token, or the share token of the pool
/// between two tokens.
#[derive(Clone, Copy, Debug, PartialEq, Eq, Structural, PartialOrd, Ord, Hash)]
pub enum CurrencyId {
    Token(TokenSymbol),
    DexShare(DexShare, DexShare),
}

/// The native currency.
pub fn sel() -> (r: CurrencyId)
    ensures
        r == CurrencyId::Token(TokenSymbol::SEL),
{
    CurrencyId::Token(TokenSymbol::SEL)
}

/// Wrapped bitcoin.
pub fn renbtc() -> (r: CurrencyId)
    ensures
        r == CurrencyId::Token(TokenSymbol::RENBTC),
{
    CurrencyId::Token(TokenSymbol::RENBTC)
}

/// The stable currency.
pub fn susd() -> (r: CurrencyId)
    ensures
        r == CurrencyId::Token(TokenSymbol::SUSD),
{
    CurrencyId::Token(TokenSymbol::SUSD)
}

/// The staking currency.
pub fn dot() -> (r: CurrencyId)
    ensures
        r == CurrencyId::Token(TokenSymbol::DOT),
{
    CurrencyId::Token(TokenSymbol::DOT)
}

/// The share token of the SEL/SUSD pool.
pub fn lp_sel_susd() -> (r: CurrencyId)
    ensures
        r == CurrencyId::DexShare(DexShare::Token(TokenSymbol::SEL), DexShare::Token(TokenSymbol::SUSD)),
{
    CurrencyId::DexShare(DexShare::Token(TokenSymbol::SEL), DexShare::Token(TokenSymbol::SUSD))
}

} // verus!
