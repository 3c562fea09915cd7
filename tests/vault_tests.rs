use anchor_lang::prelude::Pubkey;
use vault_core::distribution::{distribute, Holding};
use vault_core::entropy::custom_getrandom;
use vault_core::error::VaultError;
use vault_core::fees::{fee, net, DISTRIBUTION_FEE_BASIS_POINTS, SALE_FEE_BASIS_POINTS};
use vault_core::shares::shares_for_deposit;
use vault_core::vault::{deposit_usdc, initialize_vault, purchase_evg_l, SaleSettlement, Vault};

fn key(b: u8) -> Pubkey {
    Pubkey::new_from_array([b; 32])
}

fn new_vault() -> Vault {
    initialize_vault(
        key(1),
        key(2),
        key(3),
        key(4),
        SALE_FEE_BASIS_POINTS,
        DISTRIBUTION_FEE_BASIS_POINTS,
    )
    .unwrap()
}

fn vault_with(supply: u64, purchases: u64) -> Vault {
    let mut v = new_vault();
    v.total_evg_s_supply = supply;
    v.total_evg_l_tokens = purchases;
    v
}

fn counters(v: &Vault) -> (u64, u64) {
    (v.total_evg_s_supply, v.total_evg_l_tokens)
}

#[test]
fn initialize_sets_fields_and_zero_counters() {
    let v = new_vault();
    assert_eq!(v.authority, key(1));
    assert_eq!(v.usdc_mint, key(2));
    assert_eq!(v.treasury_account, key(3));
    assert_eq!(v.fee_account, key(4));
    assert_eq!(v.sale_fee_basis_points, 250);
    assert_eq!(v.distribution_fee_basis_points, 50);
    assert_eq!(counters(&v), (0, 0));
}

#[test]
fn initialize_rejects_rate_above_whole() {
    let r = initialize_vault(key(1), key(2), key(3), key(4), 10001, 50);
    assert!(matches!(r, Err(VaultError::InvalidConfiguration)));
    let r = initialize_vault(key(1), key(2), key(3), key(4), 250, 20000);
    assert!(matches!(r, Err(VaultError::InvalidConfiguration)));
    assert!(initialize_vault(key(1), key(2), key(3), key(4), 10000, 0).is_ok());
}

#[test]
fn fee_plus_net_is_amount() {
    let cases: [(u64, u16); 6] = [
        (0, 0),
        (1, 10000),
        (100_000, 250),
        (10_000, 50),
        (12_345, 9_999),
        (u64::MAX, 10000),
    ];
    for (amount, bps) in cases {
        let f = fee(amount, bps).unwrap();
        let n = net(amount, f).unwrap();
        assert!(f <= amount);
        assert_eq!(f + n, amount);
    }
    assert_eq!(fee(u64::MAX, 250).unwrap(), ((u64::MAX as u128) * 250 / 10000) as u64);
}

#[test]
fn fee_exact_values() {
    assert_eq!(fee(100_000, 250), Ok(2500));
    assert_eq!(fee(10_000, 50), Ok(50));
    assert_eq!(fee(199, 50), Ok(0));
    assert_eq!(fee(7, 10000), Ok(7));
}

#[test]
fn fee_rejects_rate_above_whole() {
    assert_eq!(fee(100, 10001), Err(VaultError::InvalidConfiguration));
}

#[test]
fn net_rejects_fee_above_amount() {
    assert_eq!(net(10, 11), Err(VaultError::InvalidAmount));
    assert_eq!(net(10, 3), Ok(7));
}

#[test]
fn first_deposit_mints_one_to_one() {
    let mut v = new_vault();
    assert_eq!(deposit_usdc(&mut v, 750_000, 1_000_000), Ok(750_000));
    assert_eq!(v.total_evg_s_supply, 750_000);
    assert_eq!(v.total_evg_l_tokens, 0);
}

#[test]
fn proportional_deposit_example() {
    let v = vault_with(1_000_000, 2);
    assert_eq!(shares_for_deposit(500_000, &v, 1_000_000), Ok(250_000));
    let mut v = v;
    assert_eq!(deposit_usdc(&mut v, 500_000, 1_000_000), Ok(250_000));
    assert_eq!(counters(&v), (1_250_000, 2));
}

#[test]
fn deposit_without_purchased_value_is_division_by_zero() {
    let mut v = vault_with(100, 0);
    assert_eq!(deposit_usdc(&mut v, 10, 1_000_000), Err(VaultError::DivisionByZero));
    assert_eq!(counters(&v), (100, 0));
    let mut v = vault_with(100, 3);
    assert_eq!(deposit_usdc(&mut v, 10, 0), Err(VaultError::DivisionByZero));
    assert_eq!(counters(&v), (100, 3));
}

#[test]
fn deposit_of_zero_is_invalid_amount() {
    let mut v = vault_with(100, 1);
    assert_eq!(deposit_usdc(&mut v, 0, 1_000), Err(VaultError::InvalidAmount));
    assert_eq!(counters(&v), (100, 1));
}

#[test]
fn deposit_overflow_leaves_vault_unchanged() {
    let mut v = vault_with(u64::MAX, 1);
    assert_eq!(deposit_usdc(&mut v, u64::MAX, 1), Err(VaultError::ArithmeticOverflow));
    assert_eq!(counters(&v), (u64::MAX, 1));
    let mut v = vault_with(u64::MAX - 5, 1);
    assert_eq!(deposit_usdc(&mut v, 1, u64::MAX - 5), Ok(1));
    assert_eq!(counters(&v), (u64::MAX - 4, 1));
    let mut v = vault_with(u64::MAX - 1, 1);
    assert_eq!(deposit_usdc(&mut v, 2, u64::MAX - 1), Err(VaultError::ArithmeticOverflow));
    assert_eq!(counters(&v), (u64::MAX - 1, 1));
}

#[test]
fn purchase_example() {
    let mut v = vault_with(5_000, 4);
    let s = purchase_evg_l(&mut v, 100_000, 100_000).unwrap();
    assert_eq!(s, SaleSettlement { seller_amount: 97_500, sale_fee: 2_500 });
    assert_eq!(counters(&v), (5_000, 5));
}

#[test]
fn purchase_over_balance_is_insufficient_funds() {
    let mut v = vault_with(5_000, 4);
    assert_eq!(purchase_evg_l(&mut v, 100_001, 100_000), Err(VaultError::InsufficientFunds));
    assert_eq!(counters(&v), (5_000, 4));
}

#[test]
fn purchase_count_overflow_leaves_vault_unchanged() {
    let mut v = vault_with(5, u64::MAX);
    assert_eq!(purchase_evg_l(&mut v, 10, 10), Err(VaultError::ArithmeticOverflow));
    assert_eq!(counters(&v), (5, u64::MAX));
}

#[test]
fn purchase_with_bad_rate_is_invalid_configuration() {
    let mut v = vault_with(5, 1);
    v.sale_fee_basis_points = 10001;
    assert_eq!(purchase_evg_l(&mut v, 10, 10), Err(VaultError::InvalidConfiguration));
    assert_eq!(counters(&v), (5, 1));
}

#[test]
fn distribute_example_accounts_for_residual() {
    let v = vault_with(500, 1);
    let holders = vec![
        Holding { holder: key(10), balance: 300 },
        Holding { holder: key(11), balance: 200 },
    ];
    let s = distribute(&v, 10_000, &holders).unwrap();
    assert_eq!(s.distribution_fee, 50);
    assert_eq!(s.per_unit, 19);
    assert_eq!(s.residual, 450);
    assert_eq!(s.payouts.len(), 2);
    assert_eq!(s.payouts[0].holder, key(10));
    assert_eq!(s.payouts[0].amount, 5_700);
    assert_eq!(s.payouts[1].holder, key(11));
    assert_eq!(s.payouts[1].amount, 3_800);
    let paid: u64 = s.payouts.iter().map(|p| p.amount).sum();
    assert_eq!(s.distribution_fee + paid + s.residual, 10_000);
    assert_eq!(counters(&v), (500, 1));
}

#[test]
fn distribute_without_supply_is_division_by_zero() {
    let v = vault_with(0, 3);
    let r = distribute(&v, 10_000, &vec![]);
    assert!(matches!(r, Err(VaultError::DivisionByZero)));
    assert_eq!(counters(&v), (0, 3));
}

#[test]
fn distribute_with_mismatched_holdings_is_invalid_amount() {
    let v = vault_with(500, 1);
    let short = vec![Holding { holder: key(10), balance: 499 }];
    assert!(matches!(distribute(&v, 10_000, &short), Err(VaultError::InvalidAmount)));
    let over = vec![
        Holding { holder: key(10), balance: 400 },
        Holding { holder: key(11), balance: 400 },
    ];
    assert!(matches!(distribute(&v, 10_000, &over), Err(VaultError::InvalidAmount)));
}

#[test]
fn distribute_with_bad_rate_is_invalid_configuration() {
    let mut v = vault_with(500, 1);
    v.distribution_fee_basis_points = 10001;
    let holders = vec![Holding { holder: key(10), balance: 500 }];
    assert!(matches!(distribute(&v, 10_000, &holders), Err(VaultError::InvalidConfiguration)));
}

#[test]
fn custom_getrandom_fills_counting_pattern() {
    let mut buf = [0xAAu8; 300];
    assert!(custom_getrandom(&mut buf).is_ok());
    for (i, b) in buf.iter().enumerate() {
        assert_eq!(*b as usize, i % 256);
    }
    let mut empty: [u8; 0] = [];
    assert!(custom_getrandom(&mut empty).is_ok());
}
