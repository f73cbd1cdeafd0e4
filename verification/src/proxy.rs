use vstd::prelude::*;

verus! {

/// What a proxy filter reads of a runtime call: whether it is a plain
/// balance transfer, a call into the utility pallet, or anything else.
#[derive(Clone, Copy, Debug, PartialEq, Eq, Structural)]
pub enum CallKind {
    /// `Balances::transfer { .. }`.
    BalancesTransfer,
    /// Any call of the utility pallet.
    Utility,
    /// Every other call.
    Other,
}

/// The kinds of proxy an account can register.
#[derive(Clone, Copy, Debug, PartialEq, Eq, Structural, PartialOrd, Ord, Hash)]
pub enum ProxyType {
    Any,
    JustTransfer,
    JustUtility,
}

/// Whether a proxy of kind `p` may dispatch a call of kind `c`.
pub open spec fn permits(p: ProxyType, c: CallKind) -> bool {
    match p {
        ProxyType::Any => true,
        ProxyType::JustTransfer => c == CallKind::BalancesTransfer,
        ProxyType::JustUtility => c == CallKind::Utility,
    }
}

/// Whether proxy kind `p` is declared to cover proxy kind `o`.
pub open spec fn covers(p: ProxyType, o: ProxyType) -> bool {
    p == ProxyType::Any || p == o
}

impl Default for ProxyType {
    fn default() -> (r: Self)
        ensures
            r == ProxyType::Any,
    {
        ProxyType::Any
    }
}

impl ProxyType {
    /// Whether this proxy kind lets `c` through.
    pub fn filter(&self, c: &CallKind) -> (r: bool)
        ensures
            r == permits(*self, *c),
    {
        match self {
            ProxyType::Any => true,
            ProxyType::JustTransfer => *c == CallKind::BalancesTransfer,
            ProxyType::JustUtility => *c == CallKind::Utility,
        }
    }

    /// Whether this proxy kind matches at least everything that `o` matches.
    pub fn is_superset(&self, o: &Self) -> (r: bool)
        ensures
            r == covers(*self, *o),
    {
        *self == ProxyType::Any || *self == *o
    }
}

/// A proxy kind that covers another lets through every call the other lets through.
pub proof fn lemma_superset_permits_more(p: ProxyType, o: ProxyType, c: CallKind)
    requires
        covers(p, o),
        permits(o, c),
    ensures
        permits(p, c),
{
}

/// Every proxy kind covers itself.
pub proof fn lemma_covers_reflexive(p: ProxyType)
    ensures
        covers(p, p),
{
}

/// Covering is transitive.
pub proof fn lemma_covers_transitive(p: ProxyType, q: ProxyType, r: ProxyType)
    requires
        covers(p, q),
        covers(q, r),
    ensures
        covers(p, r),
{
}

/// Two proxy kinds that cover each other are the same kind.
pub proof fn lemma_covers_antisymmetric(p: ProxyType, q: ProxyType)
    requires
        covers(p, q),
        covers(q, p),
    ensures
        p == q,
{
}

/// The `Any` kind, which is also the default, covers every kind and permits every call.
pub proof fn lemma_any_is_top(o: ProxyType, c: CallKind)
    ensures
        covers(ProxyType::Any, o),
        permits(ProxyType::Any, c),
{
}

/// Only `Any` permits every kind of call.
pub proof fn lemma_only_any_permits_all(p: ProxyType)
    requires
        forall|c: CallKind| permits(p, c),
    ensures
        p == ProxyType::Any,
{
    assert(permits(p, CallKind::Other));
}

} // verus!
