use precompile_mock::accounts::{
    alice, alice_evm_addr, alice_id, bob, bob_evm_addr, bob_id, default_evm_account_id,
    erc20_address_not_exists, eva_id, evm_account_id, homa_treasury_id, rewards_source_id, Members,
};
use precompile_mock::currency::{dot, lp_sel_susd, renbtc, sel, susd, CurrencyId, DexShare, TokenSymbol};
use precompile_mock::fixed::{Fixed, FIXED_DIV};
use precompile_mock::genesis::{run_to_block_step, test_genesis, BlockStep, INITIAL_BALANCE};
use precompile_mock::providers::{
    GasToWeight, MockBlockNumberProvider, MockEmergencyShutdown, MockLiquidStakingExchangeProvider,
    MockPriceSource, MockRelayBlockNumberProvider,
};
use precompile_mock::proxy::{CallKind, ProxyType};

fn hex20(s: &str) -> [u8; 20] {
    let mut out = [0u8; 20];
    for i in 0..20 {
        out[i] = u8::from_str_radix(&s[2 * i..2 * i + 2], 16).unwrap();
    }
    out
}

#[test]
fn evm_addresses_match_their_hex_form() {
    assert_eq!(alice_evm_addr(), hex20("1000000000000000000000000000000000000001"));
    assert_eq!(bob_evm_addr(), hex20("1000000000000000000000000000000000000002"));
    assert_eq!(erc20_address_not_exists(), hex20("0000000000000000000000000000000200000001"));
}

#[test]
fn named_accounts() {
    assert_eq!(alice_id(), [1u8; 32]);
    assert_eq!(bob_id(), [2u8; 32]);
    assert_eq!(eva_id(), [5u8; 32]);
    assert_eq!(rewards_source_id(), [3u8; 32]);
    assert_eq!(homa_treasury_id(), [255u8; 32]);
}

#[test]
fn default_account_is_evm_prefix_address_and_zeros() {
    let acc = default_evm_account_id(&alice_evm_addr());
    assert_eq!(&acc[0..4], b"evm:");
    assert_eq!(&acc[4..24], &alice_evm_addr()[..]);
    assert_eq!(&acc[24..32], &[0u8; 8]);
}

#[test]
fn mapped_account_prefers_claimed_account() {
    let claimed = [9u8; 32];
    assert_eq!(evm_account_id(&bob_evm_addr(), Some(claimed)), claimed);
    assert_eq!(evm_account_id(&bob_evm_addr(), None), default_evm_account_id(&bob_evm_addr()));
    assert_eq!(alice(Some(claimed)), claimed);
    assert_eq!(bob(None), default_evm_account_id(&bob_evm_addr()));
}

#[test]
fn alice_and_bob_map_to_distinct_accounts() {
    assert_ne!(alice(None), bob(None));
    assert_ne!(alice(None), alice_id());
    assert_ne!(bob(None), bob_id());
}

#[test]
fn members_are_alice_bob_eva_sorted() {
    let m = Members::sorted_members();
    assert_eq!(m, vec![[1u8; 32], [2u8; 32], [5u8; 32]]);
    for w in m.windows(2) {
        assert!(w[0] < w[1]);
    }
}

#[test]
fn currencies() {
    assert_eq!(sel(), CurrencyId::Token(TokenSymbol::SEL));
    assert_eq!(renbtc(), CurrencyId::Token(TokenSymbol::RENBTC));
    assert_eq!(susd(), CurrencyId::Token(TokenSymbol::SUSD));
    assert_eq!(dot(), CurrencyId::Token(TokenSymbol::DOT));
    assert_eq!(
        lp_sel_susd(),
        CurrencyId::DexShare(DexShare::Token(TokenSymbol::SEL), DexShare::Token(TokenSymbol::SUSD))
    );
}

#[test]
fn proxy_default_is_any() {
    assert_eq!(ProxyType::default(), ProxyType::Any);
}

#[test]
fn proxy_filters() {
    let calls = [CallKind::BalancesTransfer, CallKind::Utility, CallKind::Other];
    for c in calls.iter() {
        assert!(ProxyType::Any.filter(c));
    }
    assert!(ProxyType::JustTransfer.filter(&CallKind::BalancesTransfer));
    assert!(!ProxyType::JustTransfer.filter(&CallKind::Utility));
    assert!(!ProxyType::JustTransfer.filter(&CallKind::Other));
    assert!(ProxyType::JustUtility.filter(&CallKind::Utility));
    assert!(!ProxyType::JustUtility.filter(&CallKind::BalancesTransfer));
    assert!(!ProxyType::JustUtility.filter(&CallKind::Other));
}

#[test]
fn proxy_superset() {
    let kinds = [ProxyType::Any, ProxyType::JustTransfer, ProxyType::JustUtility];
    for k in kinds.iter() {
        assert!(ProxyType::Any.is_superset(k));
        assert!(k.is_superset(k));
    }
    assert!(!ProxyType::JustTransfer.is_superset(&ProxyType::Any));
    assert!(!ProxyType::JustTransfer.is_superset(&ProxyType::JustUtility));
    assert!(!ProxyType::JustUtility.is_superset(&ProxyType::JustTransfer));
}

#[test]
fn superset_permits_what_subset_permits() {
    let kinds = [ProxyType::Any, ProxyType::JustTransfer, ProxyType::JustUtility];
    let calls = [CallKind::BalancesTransfer, CallKind::Utility, CallKind::Other];
    for p in kinds.iter() {
        for o in kinds.iter() {
            for c in calls.iter() {
                if p.is_superset(o) && o.filter(c) {
                    assert!(p.filter(c));
                }
            }
        }
    }
}

#[test]
fn block_number_providers_report_zero() {
    assert_eq!(MockBlockNumberProvider::current_block_number(), 0);
    assert_eq!(MockRelayBlockNumberProvider::get(), 0);
    assert_eq!(MockRelayBlockNumberProvider::current_block_number(), 0);
}

#[test]
fn prices_are_one() {
    let one = Fixed { inner: 1_000_000_000_000_000_000 };
    assert_eq!(Fixed::one(), one);
    assert_eq!(MockPriceSource::get_price(sel()), Some(one));
    assert_eq!(MockPriceSource::get_relative_price(sel(), susd()), Some(one));
}

#[test]
fn exchange_rate_is_one_half() {
    assert_eq!(MockLiquidStakingExchangeProvider::get_exchange_rate().inner, 500_000_000_000_000_000);
}

#[test]
fn fixed_from_rational_rounds_down_and_saturates() {
    assert_eq!(Fixed::saturating_from_rational(1, 3).inner, 333_333_333_333_333_333);
    assert_eq!(Fixed::saturating_from_rational(7, 1).inner, 7 * FIXED_DIV);
    assert_eq!(Fixed::saturating_from_rational(u128::MAX, 1).inner, u128::MAX);
}

#[test]
fn emergency_shutdown_is_off() {
    assert!(!MockEmergencyShutdown::is_shutdown());
}

#[test]
fn gas_converts_one_for_one() {
    assert_eq!(GasToWeight::convert(0), 0);
    assert_eq!(GasToWeight::convert(21_000), 21_000);
    assert_eq!(GasToWeight::convert(u64::MAX), u64::MAX);
}

#[test]
fn genesis_plan() {
    let plan = test_genesis(None);
    assert_eq!(plan.evm_chain_id, 595);
    assert_eq!(plan.evm_accounts.len(), 2);
    assert_eq!(plan.evm_accounts[0].0, alice_evm_addr());
    assert_eq!(plan.evm_accounts[0].1.nonce, 1);
    assert_eq!(plan.evm_accounts[0].1.balance, INITIAL_BALANCE);
    assert_eq!(plan.evm_accounts[1].0, bob_evm_addr());
    assert_eq!(plan.evm_accounts[1].1.balance, 1_000_000_000_000);
    assert_eq!(plan.registered_assets, vec![(sel(), 1), (renbtc(), 0)]);
    assert_eq!(plan.block_number, 1);
    assert_eq!(plan.timestamp, 1);
    let u = &plan.balance_updates;
    assert_eq!(u.len(), 4);
    assert_eq!((u[0].who, u[0].currency_id, u[0].amount), ([1u8; 32], renbtc(), 1_000_000_000_000));
    assert_eq!((u[1].who, u[1].currency_id, u[1].amount), ([1u8; 32], susd(), 1_000_000_000));
    assert_eq!((u[2].who, u[2].currency_id, u[2].amount), (alice(None), renbtc(), 1_000_000_000));
    assert_eq!((u[3].who, u[3].currency_id, u[3].amount), (alice(None), susd(), 1_000_000_000));
}

#[test]
fn genesis_plan_uses_claimed_account() {
    let claimed = [7u8; 32];
    let plan = test_genesis(Some(claimed));
    assert_eq!(plan.balance_updates[2].who, claimed);
    assert_eq!(plan.balance_updates[3].who, claimed);
    assert_eq!(plan.balance_updates[0].who, [1u8; 32]);
}

fn run(mut current: u32, n: u32) -> (u32, Vec<u32>) {
    let mut finalized = Vec::new();
    while let BlockStep::Advance { finalize, initialize } = run_to_block_step(current, n) {
        finalized.push(finalize);
        current = initialize;
    }
    (current, finalized)
}

#[test]
fn run_to_block_steps() {
    assert_eq!(run_to_block_step(1, 3), BlockStep::Advance { finalize: 1, initialize: 2 });
    assert_eq!(run_to_block_step(3, 3), BlockStep::Done);
    assert_eq!(run_to_block_step(5, 3), BlockStep::Done);
    assert_eq!(run(1, 4), (4, vec![1, 2, 3]));
    assert_eq!(run(7, 4), (7, vec![]));
    assert_eq!(run(u32::MAX - 1, u32::MAX), (u32::MAX, vec![u32::MAX - 1]));
}
