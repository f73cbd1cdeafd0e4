use crate::accounts::{
    alice_evm_addr, alice_evm_bytes, alice_id, bob_evm_addr, bob_evm_bytes, evm_account_id,
    filled_account, mapped_account_of, opt_view, AccountId, EvmAddress,
};
use crate::currency::{renbtc, sel, susd, CurrencyId, TokenSymbol};
use vstd::prelude::*;

verus! {

/// The balance each EVM test account starts with.
pub const INITIAL_BALANCE: u128 = 1_000_000_000_000u128;

/// The existential deposit of the native currency.
pub const EXISTENCE_REQUIREMENT: u128 = 1u128;

/// The EVM chain id of the test chain.
pub const EVM_CHAIN_ID: u64 = 595u64;

/// An account of the EVM genesis.
#[derive(Clone, Copy, Debug, PartialEq, Eq, Structural)]
pub struct GenesisEvmAccount {
    pub nonce: u32,
    pub balance: u128,
}

/// A change of an account's balance in one currency, made by root once the
/// chain has started.
#[derive(Clone, Copy, Debug)]
pub struct BalanceUpdate {
    pub who: AccountId,
    pub currency_id: CurrencyId,
    pub amount: i128,
}

/// What the test chain is set up with: the EVM genesis, the assets
/// registered at genesis, the first block and timestamp, and the balance
/// changes made in that first block.
pub struct GenesisPlan {
    pub evm_chain_id: u64,
    /// Accounts inserted into the EVM genesis, in order, after those that the
    /// runtime itself predeploys.
    pub evm_accounts: Vec<(EvmAddress, GenesisEvmAccount)>,
    /// Native assets registered at genesis, with their minimal balances.
    pub registered_assets: Vec<(CurrencyId, u128)>,
    pub block_number: u32,
    pub timestamp: u64,
    pub balance_updates: Vec<BalanceUpdate>,
}

/// `u` changes the balance of the account `who` in `currency_id` by `amount`.
pub open spec fn is_update(u: BalanceUpdate, who: Seq<u8>, currency_id: CurrencyId, amount: int) -> bool {
    u.who@ == who && u.currency_id == currency_id && u.amount == amount
}

/// The test chain's setup. `alice_claimed` is the account that has claimed
/// Alice's EVM address when the first block runs, if any.
pub fn test_genesis(alice_claimed: Option<AccountId>) -> (r: GenesisPlan)
    ensures
        r.evm_chain_id == 595,
        r.evm_accounts@.len() == 2,
        r.evm_accounts@[0].0@ == alice_evm_bytes(),
        r.evm_accounts@[0].1 == (GenesisEvmAccount { nonce: 1, balance: INITIAL_BALANCE }),
        r.evm_accounts@[1].0@ == bob_evm_bytes(),
        r.evm_accounts@[1].1 == (GenesisEvmAccount { nonce: 1, balance: INITIAL_BALANCE }),
        r.evm_accounts@[0].0@ != r.evm_accounts@[1].0@,
        r.registered_assets@ == seq![
            (CurrencyId::Token(TokenSymbol::SEL), EXISTENCE_REQUIREMENT),
            (CurrencyId::Token(TokenSymbol::RENBTC), 0u128),
        ],
        r.block_number == 1,
        r.timestamp == 1,
        r.balance_updates@.len() == 4,
        is_update(
            r.balance_updates@[0],
            filled_account(1),
            CurrencyId::Token(TokenSymbol::RENBTC),
            1_000_000_000_000,
        ),
        is_update(
            r.balance_updates@[1],
            filled_account(1),
            CurrencyId::Token(TokenSymbol::SUSD),
            1_000_000_000,
        ),
        is_update(
            r.balance_updates@[2],
            mapped_account_of(alice_evm_bytes(), opt_view(alice_claimed)),
            CurrencyId::Token(TokenSymbol::RENBTC),
            1_000_000_000,
        ),
        is_update(
            r.balance_updates@[3],
            mapped_account_of(alice_evm_bytes(), opt_view(alice_claimed)),
            CurrencyId::Token(TokenSymbol::SUSD),
            1_000_000_000,
        ),
{
    let account = GenesisEvmAccount { nonce: 1, balance: INITIAL_BALANCE };
    let mut evm_accounts: Vec<(EvmAddress, GenesisEvmAccount)> = Vec::new();
    evm_accounts.push((alice_evm_addr(), account));
    evm_accounts.push((bob_evm_addr(), account));
    assert(alice_evm_bytes()[19] != bob_evm_bytes()[19]);

    let mut registered_assets: Vec<(CurrencyId, u128)> = Vec::new();
    registered_assets.push((sel(), EXISTENCE_REQUIREMENT));
    registered_assets.push((renbtc(), 0));

    let alice_mapped = evm_account_id(&alice_evm_addr(), alice_claimed);
    let mut balance_updates: Vec<BalanceUpdate> = Vec::new();
    balance_updates.push(BalanceUpdate { who: alice_id(), currency_id: renbtc(), amount: 1_000_000_000_000 });
    balance_updates.push(BalanceUpdate { who: alice_id(), currency_id: susd(), amount: 1_000_000_000 });
    balance_updates.push(BalanceUpdate { who: alice_mapped, currency_id: renbtc(), amount: 1_000_000_000 });
    balance_updates.push(BalanceUpdate { who: alice_mapped, currency_id: susd(), amount: 1_000_000_000 });

    GenesisPlan {
        evm_chain_id: EVM_CHAIN_ID,
        evm_accounts,
        registered_assets,
        block_number: 1,
        timestamp: 1,
        balance_updates,
    }
}

/// What `run_to_block` does next at a given block.
#[derive(Clone, Copy, Debug, PartialEq, Eq, Structural)]
pub enum BlockStep {
    /// Finalize the scheduler at block `finalize`, move to block
    /// `initialize` and initialize the scheduler there.
    Advance { finalize: u32, initialize: u32 },
    /// The target block has been reached.
    Done,
}

/// The step taken at block `current` when running to block `n`.
pub open spec fn step_of(current: u32, n: u32) -> BlockStep {
    if current < n {
        BlockStep::Advance { finalize: current, initialize: (current + 1) as u32 }
    } else {
        BlockStep::Done
    }
}

/// The next step of running the chain from block `current` to block `n`.
pub fn run_to_block_step(current: u32, n: u32) -> (r: BlockStep)
    ensures
        r == step_of(current, n),
        current >= n ==> r == BlockStep::Done,
        current < n ==> r == (BlockStep::Advance { finalize: current, initialize: (current + 1) as u32 }),
{
    if current < n {
        BlockStep::Advance { finalize: current, initialize: current + 1 }
    } else {
        BlockStep::Done
    }
}

/// The blocks finalized, in order, when steps are followed from block
/// `current` until the run is done (or a step would not move forward).
pub open spec fn finalized_trace(current: u32, n: u32) -> Seq<u32>
    decreases u32::MAX - current,
{
    match step_of(current, n) {
        BlockStep::Advance { finalize, initialize } => if initialize > current {
            seq![finalize] + finalized_trace(initialize, n)
        } else {
            seq![finalize]
        },
        BlockStep::Done => seq![],
    }
}

/// The block reached when steps are followed from block `current` until the
/// run is done (or a step would not move forward).
pub open spec fn final_block(current: u32, n: u32) -> u32
    decreases u32::MAX - current,
{
    match step_of(current, n) {
        BlockStep::Advance { finalize, initialize } => if initialize > current {
            final_block(initialize, n)
        } else {
            initialize
        },
        BlockStep::Done => current,
    }
}

/// A step advances exactly when the current block is below the target, and
/// then it finalizes the current block and moves to the next one; at or past
/// the target the run is done.
pub proof fn lemma_step_advances_below_target(current: u32, n: u32)
    ensures
        current >= n ==> step_of(current, n) == BlockStep::Done,
        current < n ==> step_of(current, n) == (BlockStep::Advance {
            finalize: current,
            initialize: (current + 1) as u32,
        }),
        step_of(current, n) is Advance <==> current < n,
{
}

/// Running to block `n` from block `current` finalizes each block from
/// `current` up to `n - 1` once, in order, and stops at the later of the two.
pub proof fn lemma_run_to_block(current: u32, n: u32)
    ensures
        finalized_trace(current, n) == (if current < n {
            Seq::new((n - current) as nat, |i: int| (current + i) as u32)
        } else {
            Seq::<u32>::empty()
        }),
        final_block(current, n) == (if current < n { n } else { current }),
    decreases u32::MAX - current,
{
    if current < n {
        lemma_run_to_block((current + 1) as u32, n);
        let expect = Seq::new((n - current) as nat, |i: int| (current + i) as u32);
        assert(finalized_trace(current, n) =~= expect);
    }
}

} // verus!
