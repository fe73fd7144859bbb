use vokter_wallet::{
    AccountId, ArithmeticError, PolicyError, TenantConfig, VaultError, MAX_ABSOLUTE_FEE,
    MIN_ABSOLUTE_FEE,
};

fn id(b: u8) -> AccountId {
    AccountId::new([b; 32])
}

fn policy(fee_bps: u64, max_tx: u64) -> TenantConfig {
    let mut c = TenantConfig {
        tenant_id: id(0),
        treasury: id(0),
        admin: id(0),
        fee_basis_points: 0,
        is_active: false,
        created_at: 0,
        updated_at: 0,
        version: 0,
        max_daily_transactions: 0,
        max_transaction_amount: 0,
        min_transaction_amount: 0,
        mint_policy: vokter_wallet::MintPolicy::AllowAll,
    };
    c.initialize(id(4), id(5), id(6), fee_bps, 1_700_000_000)
        .expect("policy setup");
    c.max_transaction_amount = max_tx;
    c
}

#[test]
fn test_zero_fee_rate_always_returns_zero() {
    let c = policy(0, 1_000_000_000_000);
    assert_eq!(c.calculate_fee(0), Ok(0));
    assert_eq!(c.calculate_fee(1), Ok(0));
    assert_eq!(c.calculate_fee(100_000_000), Ok(0));
    assert_eq!(c.calculate_fee(u64::MAX), Ok(0));
}

#[test]
fn test_fee_standard_scenario() {
    // 250 bps on 100_000_000: raw = ceil(100_000_000 * 250 / 10000)
    // = 2_500_000, inside the clamp window, so returned unchanged.
    let c = policy(250, 1_000_000_000_000);
    assert_eq!(c.calculate_fee(100_000_000), Ok(2_500_000));
}

#[test]
fn test_fee_clamped_to_floor_consumes_amount() {
    // 250 bps on 1_000_000: raw = 25_000, clamped up to the absolute floor
    // of 1_000_000, which equals the amount: fee-exceeds-amount error.
    let c = policy(250, 1_000_000_000_000);
    assert_eq!(
        c.calculate_fee(1_000_000),
        Err(VaultError::Policy(PolicyError::FeeExceedsAmount))
    );
}

#[test]
fn test_fee_rounds_up() {
    // 100_000_004 * 250 = 25_000_001_000; adding 9999 and dividing by
    // 10000 rounds the quotient up to 2_500_001.
    let c = policy(250, 1_000_000_000_000);
    assert_eq!(c.calculate_fee(100_000_004), Ok(2_500_001));
}

#[test]
fn test_fee_clamped_to_ceiling() {
    // 500 bps on 1_000_000_000_000: raw = 50_000_000_000, clamped down to
    // the absolute ceiling of 100_000_000; effective ratio 1 bps.
    let c = policy(500, 1_000_000_000_000);
    assert_eq!(c.calculate_fee(1_000_000_000_000), Ok(MAX_ABSOLUTE_FEE));
}

#[test]
fn test_fee_zero_amount_rejected() {
    let c = policy(250, 1_000_000_000_000);
    assert_eq!(
        c.calculate_fee(0),
        Err(VaultError::Policy(PolicyError::InvalidAmount))
    );
}

#[test]
fn test_fee_amount_above_tenant_limit_rejected() {
    let c = policy(250, 1_000_000_000_000);
    assert_eq!(
        c.calculate_fee(1_000_000_000_001),
        Err(VaultError::Policy(PolicyError::TransactionTooLarge))
    );
}

#[test]
fn test_fee_overflow_guard_never_wraps() {
    // Amounts beyond u64::MAX / 10000 fail with the overflow error before
    // the multiplication can wrap.
    let c = policy(250, u64::MAX);
    let too_big = u64::MAX / 10000 + 1;
    assert_eq!(
        c.calculate_fee(too_big),
        Err(VaultError::Arithmetic(ArithmeticError::FeeCalculationOverflow))
    );
    assert_eq!(
        c.calculate_fee(u64::MAX),
        Err(VaultError::Arithmetic(ArithmeticError::FeeCalculationOverflow))
    );
}

#[test]
fn test_fee_ratio_check_rejects_floor_distortion() {
    // In the region where the absolute floor dominates, the effective
    // ratio would exceed the cap; the recomputed ratio check rejects it.
    let c = policy(500, 1_000_000_000_000);
    assert_eq!(
        c.calculate_fee(10_000_000),
        Err(VaultError::Policy(PolicyError::InvalidFeeRate))
    );
}

#[test]
fn test_fee_below_amount_and_ratio_capped() {
    // Wherever a fee comes back, it is smaller than the amount and its
    // effective ratio stays within 500 bps.
    let c = policy(500, 1_000_000_000_000);
    for amount in [20_000_000u64, 100_000_000, 999_999_999, 1_000_000_000_000] {
        let fee = c.calculate_fee(amount).expect("fee owed");
        assert!(fee < amount);
        assert!(fee * 10_000 / amount <= 500);
        assert!(fee >= MIN_ABSOLUTE_FEE && fee <= MAX_ABSOLUTE_FEE);
    }
}
