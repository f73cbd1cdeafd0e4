use vstd::prelude::*;

verus! {

/// A 32-byte account of the test runtime.
pub type AccountId = [u8; 32];

/// A 20-byte EVM address.
pub type EvmAddress = [u8; 20];

/// The account whose 32 bytes all equal `b`.
pub open spec fn filled_account(b: u8) -> Seq<u8> {
    Seq::new(32, |i: int| b)
}

/// The account an EVM address maps to while no account has claimed it:
/// the bytes of `"evm:"`, the 20 address bytes, then eight zero bytes.
pub open spec fn default_account_of(address: Seq<u8>) -> Seq<u8> {
    seq![0x65u8, 0x76u8, 0x6du8, 0x3au8] + address + Seq::new(8, |i: int| 0u8)
}

/// The bytes of Alice's EVM address, `0x1000000000000000000000000000000000000001`.
pub open spec fn alice_evm_bytes() -> Seq<u8> {
    seq![0x10u8, 0, 0, 0, 0, 0, 0, 0, 0, 0, 0, 0, 0, 0, 0, 0, 0, 0, 0, 1]
}

/// The bytes of Bob's EVM address, `0x1000000000000000000000000000000000000002`.
pub open spec fn bob_evm_bytes() -> Seq<u8> {
    seq![0x10u8, 0, 0, 0, 0, 0, 0, 0, 0, 0, 0, 0, 0, 0, 0, 0, 0, 0, 0, 2]
}

/// The account that an EVM address maps to, given the account that has
/// claimed the address, if any.
pub open spec fn mapped_account_of(address: Seq<u8>, claimed: Option<Seq<u8>>) -> Seq<u8> {
    match claimed {
        Some(a) => a,
        None => default_account_of(address),
    }
}

/// `a` comes strictly before `b` in byte-wise lexicographic order
/// (for sequences of the same length).
pub open spec fn lex_lt(a: Seq<u8>, b: Seq<u8>) -> bool {
    exists|k: int| 0 <= k < a.len() && k < b.len() && a.take(k) == b.take(k) && a[k] < b[k]
}

/// The view of an optional account.
pub open spec fn opt_view(a: Option<AccountId>) -> Option<Seq<u8>> {
    match a {
        Some(x) => Some(x@),
        None => None,
    }
}

fn filled(b: u8) -> (r: AccountId)
    ensures
        r@ == filled_account(b),
{
    let r: AccountId = [b; 32];
    assert(r@ =~= filled_account(b));
    r
}

/// The account of Alice.
pub fn alice_id() -> (r: AccountId)
    ensures
        r@ == filled_account(1),
{
    filled(1)
}

/// The account of Bob.
pub fn bob_id() -> (r: AccountId)
    ensures
        r@ == filled_account(2),
{
    filled(2)
}

/// The account of Eva.
pub fn eva_id() -> (r: AccountId)
    ensures
        r@ == filled_account(5),
{
    filled(5)
}

/// The account that incentive rewards are paid from.
pub fn rewards_source_id() -> (r: AccountId)
    ensures
        r@ == filled_account(3),
{
    filled(3)
}

/// The treasury account of the liquid-staking module.
pub fn homa_treasury_id() -> (r: AccountId)
    ensures
        r@ == filled_account(255),
{
    filled(255)
}

/// The EVM address `0x1000000000000000000000000000000000000001`.
pub fn alice_evm_addr() -> (r: EvmAddress)
    ensures
        r@ == alice_evm_bytes(),
{
    let r: EvmAddress = [0x10, 0, 0, 0, 0, 0, 0, 0, 0, 0, 0, 0, 0, 0, 0, 0, 0, 0, 0, 1];
    assert(r@ =~= alice_evm_bytes());
    r
}

/// The EVM address `0x1000000000000000000000000000000000000002`.
pub fn bob_evm_addr() -> (r: EvmAddress)
    ensures
        r@ == bob_evm_bytes(),
{
    let r: EvmAddress = [0x10, 0, 0, 0, 0, 0, 0, 0, 0, 0, 0, 0, 0, 0, 0, 0, 0, 0, 0, 2];
    assert(r@ =~= bob_evm_bytes());
    r
}

/// The EVM address `0x0000000000000000000000000000000200000001`, at which
/// no ERC20 contract is deployed.
pub fn erc20_address_not_exists() -> (r: EvmAddress)
    ensures
        r@ == seq![0u8, 0, 0, 0, 0, 0, 0, 0, 0, 0, 0, 0, 0, 0, 0, 2, 0, 0, 0, 1],
{
    let r: EvmAddress = [0, 0, 0, 0, 0, 0, 0, 0, 0, 0, 0, 0, 0, 0, 0, 2, 0, 0, 0, 1];
    assert(r@ =~= seq![0u8, 0, 0, 0, 0, 0, 0, 0, 0, 0, 0, 0, 0, 0, 0, 2, 0, 0, 0, 1]);
    r
}

/// The account that `address` maps to while no account has claimed it.
pub fn default_evm_account_id(address: &EvmAddress) -> (r: AccountId)
    ensures
        r@ == default_account_of(address@),
        r@.len() == 32,
        r@.subrange(0, 4) == seq![0x65u8, 0x76u8, 0x6du8, 0x3au8],
        r@.subrange(4, 24) == address@,
        forall|j: int| 24 <= j < 32 ==> r@[j] == 0u8,
{
    let mut data: AccountId = [0u8; 32];
    data[0] = 0x65;
    data[1] = 0x76;
    data[2] = 0x6d;
    data[3] = 0x3a;
    let mut i: usize = 0;
    while i < 20
        invariant
            0 <= i <= 20,
            data@.len() == 32,
            data@[0] == 0x65u8,
            data@[1] == 0x76u8,
            data@[2] == 0x6du8,
            data@[3] == 0x3au8,
            forall|j: int| 0 <= j < i ==> data@[4 + j] == address@[j],
            forall|j: int| 24 <= j < 32 ==> data@[j] == 0u8,
        decreases 20 - i,
    {
        data[4 + i] = address[i];
        i = i + 1;
    }
    assert(data@ =~= default_account_of(address@));
    assert(data@.subrange(0, 4) =~= seq![0x65u8, 0x76u8, 0x6du8, 0x3au8]);
    assert(data@.subrange(4, 24) =~= address@);
    data
}

/// The account that `address` maps to: the account that has claimed it,
/// where `claimed` holds one, else its default account.
pub fn evm_account_id(address: &EvmAddress, claimed: Option<AccountId>) -> (r: AccountId)
    ensures
        r@ == mapped_account_of(address@, opt_view(claimed)),
        claimed matches Some(a) ==> r == a,
        claimed is None ==> r@.subrange(0, 4) == seq![0x65u8, 0x76u8, 0x6du8, 0x3au8]
            && r@.subrange(4, 24) == address@ && forall|j: int| 24 <= j < 32 ==> r@[j] == 0u8,
{
    match claimed {
        Some(account) => account,
        None => default_evm_account_id(address),
    }
}

/// The account that Alice's EVM address maps to, given the account that has
/// claimed that address, if any.
pub fn alice(claimed: Option<AccountId>) -> (r: AccountId)
    ensures
        r@ == mapped_account_of(alice_evm_bytes(), opt_view(claimed)),
        claimed matches Some(a) ==> r == a,
{
    evm_account_id(&alice_evm_addr(), claimed)
}

/// The account that Bob's EVM address maps to, given the account that has
/// claimed that address, if any.
pub fn bob(claimed: Option<AccountId>) -> (r: AccountId)
    ensures
        r@ == mapped_account_of(bob_evm_bytes(), opt_view(claimed)),
        claimed matches Some(a) ==> r == a,
{
    evm_account_id(&bob_evm_addr(), claimed)
}

/// The oracle members of the test runtime.
pub struct Members;

impl Members {
    /// Alice, Bob and Eva, in ascending order.
    pub fn sorted_members() -> (r: Vec<AccountId>)
        ensures
            r@.len() == 3,
            r@[0]@ == filled_account(1),
            r@[1]@ == filled_account(2),
            r@[2]@ == filled_account(5),
            forall|i: int, j: int| 0 <= i < j < r@.len() ==> lex_lt(r@[i]@, r@[j]@),
    {
        let mut r: Vec<AccountId> = Vec::new();
        r.push(alice_id());
        r.push(bob_id());
        r.push(eva_id());
        assert forall|i: int, j: int| 0 <= i < j < r@.len() implies lex_lt(r@[i]@, r@[j]@) by {
            lemma_filled_lt(r@[i]@[0], r@[j]@[0]);
        }
        r
    }
}

/// Filled accounts order as their byte does.
pub proof fn lemma_filled_lt(a: u8, b: u8)
    requires
        a < b,
    ensures
        lex_lt(filled_account(a), filled_account(b)),
{
    assert(filled_account(a).take(0) =~= filled_account(b).take(0));
}

/// Distinct EVM addresses map to distinct default accounts.
pub proof fn lemma_default_account_injective(a: Seq<u8>, b: Seq<u8>)
    requires
        a.len() == 20,
        b.len() == 20,
        default_account_of(a) == default_account_of(b),
    ensures
        a == b,
{
    assert forall|i: int| 0 <= i < 20 implies a[i] == b[i] by {
        assert(default_account_of(a)[4 + i] == a[i]);
        assert(default_account_of(b)[4 + i] == b[i]);
    }
    assert(a =~= b);
}

/// The default account of any 20-byte address is 32 bytes: `"evm:"`, the
/// address, then eight zero bytes.
pub proof fn lemma_default_account_layout(a: Seq<u8>)
    requires
        a.len() == 20,
    ensures
        default_account_of(a).len() == 32,
        default_account_of(a)[0] == 0x65u8,
        default_account_of(a)[1] == 0x76u8,
        default_account_of(a)[2] == 0x6du8,
        default_account_of(a)[3] == 0x3au8,
        forall|j: int| 0 <= j < 20 ==> default_account_of(a)[4 + j] == a[j],
        forall|j: int| 24 <= j < 32 ==> default_account_of(a)[j] == 0u8,
{
}

/// A claimed address maps to the account that claimed it, whatever that
/// account is; an unclaimed one maps to its default account.
pub proof fn lemma_claimed_account_wins(address: Seq<u8>, a: Seq<u8>)
    ensures
        mapped_account_of(address, Some(a)) == a,
        mapped_account_of(address, None) == default_account_of(address),
{
}

/// The EVM address can be read back from its default account: bytes 4 to 24.
pub proof fn lemma_default_account_holds_address(a: Seq<u8>)
    requires
        a.len() == 20,
    ensures
        default_account_of(a).len() == 32,
        default_account_of(a).subrange(4, 24) == a,
{
    assert(default_account_of(a).subrange(4, 24) =~= a);
}

/// No default account of an EVM address is an account filled with one byte,
/// such as Alice's, Bob's or Eva's.
pub proof fn lemma_default_account_not_filled(a: Seq<u8>, b: u8)
    requires
        a.len() == 20,
    ensures
        default_account_of(a) != filled_account(b),
{
    assert(default_account_of(a)[0] != default_account_of(a)[1]);
    assert(filled_account(b)[0] == filled_account(b)[1]);
}

/// While neither address is claimed, Alice's and Bob's EVM addresses map to
/// two different accounts, and neither is Alice's or Bob's own account.
pub proof fn lemma_alice_bob_mapped_distinct()
    ensures
        mapped_account_of(alice_evm_bytes(), None) != mapped_account_of(bob_evm_bytes(), None),
        mapped_account_of(alice_evm_bytes(), None) != filled_account(1),
        mapped_account_of(bob_evm_bytes(), None) != filled_account(2),
{
    if default_account_of(alice_evm_bytes()) == default_account_of(bob_evm_bytes()) {
        lemma_default_account_injective(alice_evm_bytes(), bob_evm_bytes());
        assert(alice_evm_bytes()[19] != bob_evm_bytes()[19]);
    }
    lemma_default_account_not_filled(alice_evm_bytes(), 1);
    lemma_default_account_not_filled(bob_evm_bytes(), 2);
}

} // verus!
