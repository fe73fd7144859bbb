//! Guardian-protected custodial vault core: tenant policy engine, fee
//! computation, wallet/guardian authorization, and vault lifecycle rules.

mod derivation;
mod errors;
mod ids;
mod spl_vault;
mod tenant_config;
mod wallet;

pub use derivation::{
    check_address, derive_tenant_address, derive_vault_address, derive_wallet_address,
    derived_address_of, derivation_view, spec_check_address, tenant_seeds, tenant_tag,
    vault_seeds, vault_tag, wallet_seeds, wallet_tag,
};
pub use errors::{ArithmeticError, AuthorizationError, PolicyError, StateError, VaultError};
pub use ids::AccountId;
pub use tenant_config::{
    InitializeTenantConfig, MintPolicy, TenantConfig, UpdateTenantConfig,
    DEFAULT_MAX_DAILY_TRANSACTIONS, DEFAULT_MAX_TRANSACTION_AMOUNT,
    DEFAULT_MIN_TRANSACTION_AMOUNT, MAX_ABSOLUTE_FEE, MAX_FEE_BASIS_POINTS, MIN_ABSOLUTE_FEE,
    MIN_FEE_BASIS_POINTS,
};
pub use tenant_config::{lemma_fee_below_amount, lemma_fee_overflow_guard, lemma_zero_fee_rate};
pub use tenant_config::{
    initialize_tenant_config, update_tenant_fee_rate, update_tenant_mint_policy,
    update_tenant_treasury,
};
pub use spl_vault::{
    deposit_spl_tokens, initialize_spl_vault, spec_deposit_spl_tokens, spec_initialize_spl_vault,
    spec_withdraw_spl_tokens, withdraw_spl_tokens, DepositSPLTokens, InitializeSPLVault,
    SPLTokensDeposited, SPLTokensWithdrawn, SPLVault, SPLVaultInitialized, SPLVaultStatus,
    TokenAccount, TokenTransfer, WithdrawSPLTokens,
};
pub use spl_vault::{
    lemma_deposits_accumulate, lemma_insufficient_balance_fails, lemma_withdraw_requires_guardian,
};
pub use wallet::VokterWallet;
