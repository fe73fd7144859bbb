use vokter_wallet::{
    derive_tenant_address, derive_vault_address, derive_wallet_address, AccountId,
    ArithmeticError, AuthorizationError, DepositSPLTokens, InitializeSPLVault,
    InitializeTenantConfig, MintPolicy, PolicyError, SPLVault, SPLVaultStatus, StateError,
    TenantConfig, TokenAccount, VaultError, VokterWallet, WithdrawSPLTokens,
};

fn id(b: u8) -> AccountId {
    AccountId::new([b; 32])
}

const NOW: i64 = 1_700_000_000;

struct Scenario {
    wallet: VokterWallet,
    wallet_address: AccountId,
    tenant: TenantConfig,
    tenant_address: AccountId,
    tenant_id: AccountId,
    owner: AccountId,
    guardian: AccountId,
    mint: AccountId,
    vault_address: AccountId,
    program: AccountId,
}

fn scenario() -> Scenario {
    let owner = id(1);
    let guardian = id(2);
    let mint = id(3);
    let tenant_id = id(4);
    let program = id(9);
    let wallet_address = derive_wallet_address(&owner, &program).expect("derivation").0;
    let tenant_address = derive_tenant_address(&tenant_id, &program).expect("derivation").0;
    let vault_address =
        derive_vault_address(&wallet_address, &mint, &program).expect("derivation").0;
    let mut tenant = TenantConfig {
        tenant_id: id(0),
        treasury: id(0),
        admin: id(0),
        fee_basis_points: 0,
        is_active: false,
        created_at: 0,
        updated_at: 0,
        version: 0,
        max_daily_transactions: 0,
        max_transaction_amount: 0,
        min_transaction_amount: 0,
        mint_policy: MintPolicy::AllowAll,
    };
    tenant
        .initialize(tenant_id, id(5), id(6), 250, NOW)
        .expect("onboarding");
    Scenario {
        wallet: VokterWallet { owner, guardian },
        wallet_address,
        tenant,
        tenant_address,
        tenant_id,
        owner,
        guardian,
        mint,
        vault_address,
        program,
    }
}

fn vault_token_account(s: &Scenario, amount: u64) -> TokenAccount {
    TokenAccount {
        address: id(7),
        owner: s.vault_address,
        mint: s.mint,
        amount,
    }
}

fn init_accounts(s: &Scenario, guardian: Option<AccountId>) -> InitializeSPLVault {
    InitializeSPLVault {
        vokter_wallet: s.wallet,
        vokter_wallet_address: s.wallet_address,
        tenant_config: s.tenant,
        tenant_config_address: s.tenant_address,
        owner: s.owner,
        guardian,
        mint: s.mint,
        spl_vault_address: s.vault_address,
        vault_token_account: vault_token_account(s, 0),
        program_id: s.program,
    }
}

fn fresh_vault(s: &Scenario) -> SPLVault {
    let accounts = init_accounts(s, Some(s.guardian));
    let (vault, _) = vokter_wallet::initialize_spl_vault(&accounts, &s.tenant_id, NOW)
        .expect("vault creation");
    vault
}

fn deposit_accounts(s: &Scenario) -> DepositSPLTokens {
    DepositSPLTokens {
        vokter_wallet: s.wallet,
        vokter_wallet_address: s.wallet_address,
        tenant_config: s.tenant,
        tenant_config_address: s.tenant_address,
        owner: s.owner,
        spl_vault_address: s.vault_address,
        mint: s.mint,
        owner_token_account: TokenAccount {
            address: id(8),
            owner: s.owner,
            mint: s.mint,
            amount: 1_000_000_000,
        },
        vault_token_account: vault_token_account(s, 0),
        program_id: s.program,
    }
}

fn withdraw_accounts(
    s: &Scenario,
    guardian: Option<AccountId>,
    vault_balance: u64,
) -> WithdrawSPLTokens {
    WithdrawSPLTokens {
        vokter_wallet: s.wallet,
        vokter_wallet_address: s.wallet_address,
        tenant_config: s.tenant,
        tenant_config_address: s.tenant_address,
        owner: s.owner,
        guardian,
        spl_vault_address: s.vault_address,
        mint: s.mint,
        vault_token_account: vault_token_account(s, vault_balance),
        recipient_token_account: TokenAccount {
            address: id(10),
            owner: id(11),
            mint: s.mint,
            amount: 0,
        },
        program_id: s.program,
    }
}

#[test]
fn test_initialize_vault_fresh_state() {
    let s = scenario();
    let accounts = init_accounts(&s, Some(s.guardian));
    let (vault, event) =
        vokter_wallet::initialize_spl_vault(&accounts, &s.tenant_id, NOW).expect("creation");
    assert_eq!(vault.status, SPLVaultStatus::Active);
    assert!(!vault.is_paused);
    assert_eq!(vault.total_deposited, 0);
    assert_eq!(vault.total_withdrawn, 0);
    assert_eq!(vault.vokter_wallet.bytes, s.wallet_address.bytes);
    assert_eq!(vault.mint.bytes, s.mint.bytes);
    assert_eq!(vault.vault_token_account.bytes, [7; 32]);
    assert_eq!(vault.created_at, NOW);
    assert_eq!(event.owner.bytes, [1; 32]);
    assert_eq!(event.guardian.bytes, [2; 32]);
    assert_eq!(event.spl_vault.bytes, s.vault_address.bytes);
}

#[test]
fn test_initialize_vault_requires_guardian() {
    let s = scenario();
    let accounts = init_accounts(&s, None);
    assert_eq!(
        vokter_wallet::initialize_spl_vault(&accounts, &s.tenant_id, NOW).err(),
        Some(VaultError::Authorization(AuthorizationError::MissingGuardianSignature))
    );
}

#[test]
fn test_initialize_vault_respects_mint_policy() {
    let mut s = scenario();
    s.tenant
        .update_mint_policy(MintPolicy::BlockAll, NOW)
        .expect("policy update");
    let accounts = init_accounts(&s, Some(s.guardian));
    assert_eq!(
        vokter_wallet::initialize_spl_vault(&accounts, &s.tenant_id, NOW).err(),
        Some(VaultError::Policy(PolicyError::MintNotAllowed))
    );
}

#[test]
fn test_initialize_vault_requires_active_tenant() {
    let mut s = scenario();
    s.tenant.is_active = false;
    let accounts = init_accounts(&s, Some(s.guardian));
    assert_eq!(
        vokter_wallet::initialize_spl_vault(&accounts, &s.tenant_id, NOW).err(),
        Some(VaultError::Policy(PolicyError::TenantNotActive))
    );
}

#[test]
fn test_deposit_books_exact_amount() {
    let s = scenario();
    let mut vault = fresh_vault(&s);
    let accounts = deposit_accounts(&s);
    let (transfer, event) =
        vokter_wallet::deposit_spl_tokens(&accounts, &mut vault, &s.tenant_id, 60_000_000, NOW + 5)
            .expect("deposit");
    assert_eq!(vault.total_deposited, 60_000_000);
    assert_eq!(vault.total_withdrawn, 0);
    assert_eq!(vault.last_activity, NOW + 5);
    assert_eq!(transfer.from.bytes, [8; 32]);
    assert_eq!(transfer.to.bytes, [7; 32]);
    assert_eq!(transfer.authority.bytes, [1; 32]);
    assert_eq!(transfer.amount, 60_000_000);
    assert_eq!(event.amount, 60_000_000);
    assert_eq!(event.wallet.bytes, s.wallet_address.bytes);
    assert_eq!(event.timestamp, NOW + 5);
}

#[test]
fn test_deposits_accumulate() {
    let s = scenario();
    let mut vault = fresh_vault(&s);
    let accounts = deposit_accounts(&s);
    vokter_wallet::deposit_spl_tokens(&accounts, &mut vault, &s.tenant_id, 60_000_000, NOW + 5)
        .expect("first deposit");
    vokter_wallet::deposit_spl_tokens(&accounts, &mut vault, &s.tenant_id, 40_000_000, NOW + 6)
        .expect("second deposit");
    assert_eq!(vault.total_deposited, 100_000_000);

    let mut single = fresh_vault(&s);
    vokter_wallet::deposit_spl_tokens(&accounts, &mut single, &s.tenant_id, 100_000_000, NOW + 6)
        .expect("single deposit");
    assert_eq!(single.total_deposited, vault.total_deposited);
}

#[test]
fn test_deposit_rejects_zero_amount() {
    let s = scenario();
    let mut vault = fresh_vault(&s);
    let accounts = deposit_accounts(&s);
    assert_eq!(
        vokter_wallet::deposit_spl_tokens(&accounts, &mut vault, &s.tenant_id, 0, NOW).err(),
        Some(VaultError::Policy(PolicyError::InvalidAmount))
    );
    assert_eq!(vault.total_deposited, 0);
}

#[test]
fn test_deposit_rejects_paused_vault() {
    let s = scenario();
    let mut vault = fresh_vault(&s);
    vault.is_paused = true;
    let accounts = deposit_accounts(&s);
    assert_eq!(
        vokter_wallet::deposit_spl_tokens(&accounts, &mut vault, &s.tenant_id, 1_000, NOW).err(),
        Some(VaultError::State(StateError::VaultPaused))
    );
    let mut closed = fresh_vault(&s);
    closed.status = SPLVaultStatus::Closed;
    assert_eq!(
        vokter_wallet::deposit_spl_tokens(&accounts, &mut closed, &s.tenant_id, 1_000, NOW).err(),
        Some(VaultError::State(StateError::VaultPaused))
    );
}

#[test]
fn test_deposit_rejects_foreign_owner() {
    let s = scenario();
    let mut vault = fresh_vault(&s);
    let mut accounts = deposit_accounts(&s);
    accounts.vokter_wallet = VokterWallet {
        owner: id(13),
        guardian: s.guardian,
    };
    assert_eq!(
        vokter_wallet::deposit_spl_tokens(&accounts, &mut vault, &s.tenant_id, 1_000, NOW).err(),
        Some(VaultError::Authorization(AuthorizationError::OwnerMismatch))
    );
}

#[test]
fn test_deposit_counter_overflow_is_surfaced() {
    let s = scenario();
    let mut vault = fresh_vault(&s);
    vault.total_deposited = u64::MAX - 5;
    let accounts = deposit_accounts(&s);
    assert_eq!(
        vokter_wallet::deposit_spl_tokens(&accounts, &mut vault, &s.tenant_id, 6, NOW).err(),
        Some(VaultError::Arithmetic(ArithmeticError::CounterOverflow))
    );
    assert_eq!(vault.total_deposited, u64::MAX - 5);
}

#[test]
fn test_withdraw_success() {
    let s = scenario();
    let mut vault = fresh_vault(&s);
    let accounts = withdraw_accounts(&s, Some(s.guardian), 500_000_000);
    let (transfer, event) = vokter_wallet::withdraw_spl_tokens(
        &accounts,
        &mut vault,
        &s.tenant_id,
        200_000_000,
        NOW + 9,
    )
    .expect("withdrawal");
    assert_eq!(vault.total_withdrawn, 200_000_000);
    assert_eq!(vault.last_activity, NOW + 9);
    assert_eq!(transfer.from.bytes, [7; 32]);
    assert_eq!(transfer.to.bytes, [10; 32]);
    assert_eq!(transfer.authority.bytes, s.vault_address.bytes);
    assert_eq!(event.recipient.bytes, [11; 32]);
    assert_eq!(event.guardian.bytes, [2; 32]);
    assert_eq!(event.amount, 200_000_000);
}

#[test]
fn test_withdraw_owner_only_rejected_before_balance_check() {
    // Even with a balance that could not cover the request, the missing
    // guardian co-signature is what rejects the attempt: authorization runs
    // before any balance is read.
    let s = scenario();
    let mut vault = fresh_vault(&s);
    let accounts = withdraw_accounts(&s, None, 1);
    assert_eq!(
        vokter_wallet::withdraw_spl_tokens(&accounts, &mut vault, &s.tenant_id, 1_000_000, NOW)
            .err(),
        Some(VaultError::Authorization(AuthorizationError::MissingGuardianSignature))
    );
    assert_eq!(vault.total_withdrawn, 0);
}

#[test]
fn test_withdraw_rejects_wrong_guardian() {
    let s = scenario();
    let mut vault = fresh_vault(&s);
    let accounts = withdraw_accounts(&s, Some(id(14)), 500_000_000);
    assert_eq!(
        vokter_wallet::withdraw_spl_tokens(&accounts, &mut vault, &s.tenant_id, 1_000, NOW).err(),
        Some(VaultError::Authorization(AuthorizationError::GuardianMismatch))
    );
}

#[test]
fn test_withdraw_insufficient_funds() {
    let s = scenario();
    let mut vault = fresh_vault(&s);
    let accounts = withdraw_accounts(&s, Some(s.guardian), 100);
    assert_eq!(
        vokter_wallet::withdraw_spl_tokens(&accounts, &mut vault, &s.tenant_id, 101, NOW).err(),
        Some(VaultError::State(StateError::InsufficientFunds))
    );
    assert_eq!(vault.total_withdrawn, 0);
    assert_eq!(vault.last_activity, NOW);
}

#[test]
fn test_deposit_rejects_wrong_wallet_address() {
    let s = scenario();
    let mut vault = fresh_vault(&s);
    let mut accounts = deposit_accounts(&s);
    accounts.vokter_wallet_address = id(20);
    assert_eq!(
        vokter_wallet::deposit_spl_tokens(&accounts, &mut vault, &s.tenant_id, 1_000, NOW).err(),
        Some(VaultError::Authorization(AuthorizationError::WalletAddressMismatch))
    );
}

#[test]
fn test_deposit_rejects_wrong_vault_address() {
    let s = scenario();
    let mut vault = fresh_vault(&s);
    let mut accounts = deposit_accounts(&s);
    accounts.spl_vault_address = id(21);
    assert_eq!(
        vokter_wallet::deposit_spl_tokens(&accounts, &mut vault, &s.tenant_id, 1_000, NOW).err(),
        Some(VaultError::Authorization(AuthorizationError::VaultAddressMismatch))
    );
}

#[test]
fn test_deposit_rejects_foreign_mint() {
    let s = scenario();
    let mut vault = fresh_vault(&s);
    vault.mint = id(22);
    let accounts = deposit_accounts(&s);
    assert_eq!(
        vokter_wallet::deposit_spl_tokens(&accounts, &mut vault, &s.tenant_id, 1_000, NOW).err(),
        Some(VaultError::Authorization(AuthorizationError::MintMismatch))
    );
}

#[test]
fn test_deposit_rejects_foreign_source_account() {
    let s = scenario();
    let mut vault = fresh_vault(&s);
    let mut accounts = deposit_accounts(&s);
    accounts.owner_token_account.owner = id(23);
    assert_eq!(
        vokter_wallet::deposit_spl_tokens(&accounts, &mut vault, &s.tenant_id, 1_000, NOW).err(),
        Some(VaultError::Authorization(AuthorizationError::TokenAccountMismatch))
    );
}

#[test]
fn test_withdraw_rejects_stale_tenant_reference() {
    let s = scenario();
    let mut vault = fresh_vault(&s);
    let mut accounts = withdraw_accounts(&s, Some(s.guardian), 500_000_000);
    accounts.tenant_config_address = id(24);
    assert_eq!(
        vokter_wallet::withdraw_spl_tokens(&accounts, &mut vault, &s.tenant_id, 1_000, NOW).err(),
        Some(VaultError::Authorization(AuthorizationError::TenantAddressMismatch))
    );
}

#[test]
fn test_onboarding_gate_checks_derived_address() {
    let s = scenario();
    let gate = InitializeTenantConfig {
        tenant_config_address: s.tenant_address,
        authority: id(15),
        program_id: s.program,
    };
    assert_eq!(gate.authorize(&s.tenant_id), Ok(()));

    let wrong = InitializeTenantConfig {
        tenant_config_address: id(16),
        authority: id(15),
        program_id: s.program,
    };
    assert_eq!(
        wrong.authorize(&s.tenant_id),
        Err(VaultError::Authorization(AuthorizationError::TenantAddressMismatch))
    );
}

#[test]
fn test_derivation_deterministic_and_distinct() {
    let owner = id(1);
    let program = id(9);
    let a = derive_wallet_address(&owner, &program).expect("derivation");
    let b = derive_wallet_address(&owner, &program).expect("derivation");
    assert_eq!(a.0.bytes, b.0.bytes);
    assert_eq!(a.1, b.1);
    // The derived address is a fresh identity, not an input handed back.
    assert_ne!(a.0.bytes, owner.bytes);
    assert_ne!(a.0.bytes, program.bytes);
    // Different namespaces over the same identity derive different
    // addresses.
    let t = derive_tenant_address(&owner, &program).expect("derivation");
    assert_ne!(a.0.bytes, t.0.bytes);
    // Different owners derive different wallet addresses.
    let c = derive_wallet_address(&id(2), &program).expect("derivation");
    assert_ne!(a.0.bytes, c.0.bytes);
}
