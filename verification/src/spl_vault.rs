//! Per-asset custodial vaults under guardian protection: lifecycle records,
//! the authorization gates evaluated before any mutation, and the deposit
//! and withdrawal operations with their events and outbound transfer
//! actions.

use vstd::prelude::*;

use crate::derivation::{
    check_address, derivation_view, derive_tenant_address, derive_vault_address,
    derive_wallet_address, derived_address_of, spec_check_address, tenant_seeds, vault_seeds,
    wallet_seeds,
};
use crate::errors::{ArithmeticError, AuthorizationError, PolicyError, StateError, VaultError};
use crate::ids::AccountId;
use crate::tenant_config::TenantConfig;
use crate::wallet::VokterWallet;

verus! {

/// Lifecycle status of a vault. `Active` and `Paused` are interchangeable,
/// policy-driven states; `Closed` is terminal.
#[derive(Clone, Copy, Debug, PartialEq, Eq, Structural)]
pub enum SPLVaultStatus {
    Active,
    Paused,
    Closed,
}

impl Default for SPLVaultStatus {
    fn default() -> (r: Self)
        ensures
            r == SPLVaultStatus::Active,
    {
        SPLVaultStatus::Active
    }
}

/// One (wallet, mint) pair's custodial vault record. Created once, mutated
/// only by deposits and withdrawals, never deleted.
#[derive(Clone, Copy, Debug)]
pub struct SPLVault {
    /// The owning wallet record's address.
    pub vokter_wallet: AccountId,
    /// The mint of the asset held in custody.
    pub mint: AccountId,
    /// The vault's own custodial token account.
    pub vault_token_account: AccountId,
    /// Creation timestamp.
    pub created_at: i64,
    /// Cumulative deposited amount; monotonically non-decreasing.
    pub total_deposited: u64,
    /// Cumulative withdrawn amount; monotonically non-decreasing.
    pub total_withdrawn: u64,
    /// Last-activity timestamp.
    pub last_activity: i64,
    /// Lifecycle status.
    pub status: SPLVaultStatus,
    /// Emergency pause flag.
    pub is_paused: bool,
}

impl SPLVault {
    /// A vault accepts fund movement only while `Active` and not paused.
    pub open spec fn spec_is_operational(&self) -> bool {
        self.status == SPLVaultStatus::Active && !self.is_paused
    }

    /// The record after booking a deposit of `amount` at time `now`.
    pub open spec fn spec_with_deposit(self, amount: u64, now: i64) -> SPLVault {
        SPLVault {
            total_deposited: (self.total_deposited + amount) as u64,
            last_activity: now,
            ..self
        }
    }

    /// The record after booking a withdrawal of `amount` at time `now`.
    pub open spec fn spec_with_withdrawal(self, amount: u64, now: i64) -> SPLVault {
        SPLVault {
            total_withdrawn: (self.total_withdrawn + amount) as u64,
            last_activity: now,
            ..self
        }
    }
}

/// The fields of a custodial token account that the vault logic reads.
#[derive(Clone, Copy, Debug)]
pub struct TokenAccount {
    /// The token account's own address.
    pub address: AccountId,
    /// The identity that controls the token account.
    pub owner: AccountId,
    /// The mint the token account holds.
    pub mint: AccountId,
    /// Its current balance, in the asset's base unit.
    pub amount: u64,
}

/// The one balance movement an operation authorizes: the host's token
/// ledger performs it atomically with the bookkeeping.
#[derive(Clone, Copy, Debug)]
pub struct TokenTransfer {
    /// Source token account.
    pub from: AccountId,
    /// Destination token account.
    pub to: AccountId,
    /// The identity authorizing the movement: the owner on deposit, the
    /// vault's own derived identity on withdrawal.
    pub authority: AccountId,
    /// The mint being moved.
    pub mint: AccountId,
    /// The amount, in the asset's base unit.
    pub amount: u64,
}

/// Event emitted when a vault is created.
#[derive(Clone, Copy, Debug)]
pub struct SPLVaultInitialized {
    pub wallet: AccountId,
    pub spl_vault: AccountId,
    pub mint: AccountId,
    pub vault_token_account: AccountId,
    pub owner: AccountId,
    pub guardian: AccountId,
    pub timestamp: i64,
}

/// Event emitted when tokens enter custody.
#[derive(Clone, Copy, Debug)]
pub struct SPLTokensDeposited {
    pub wallet: AccountId,
    pub spl_vault: AccountId,
    pub mint: AccountId,
    pub owner: AccountId,
    pub amount: u64,
    pub timestamp: i64,
}

/// Event emitted when tokens leave custody.
#[derive(Clone, Copy, Debug)]
pub struct SPLTokensWithdrawn {
    pub wallet: AccountId,
    pub spl_vault: AccountId,
    pub mint: AccountId,
    pub owner: AccountId,
    pub guardian: AccountId,
    pub recipient: AccountId,
    pub amount: u64,
    pub timestamp: i64,
}

/// The accounts a vault-creation request presents, resolved to the plain
/// values the authorization gate reads.
#[derive(Clone, Copy, Debug)]
pub struct InitializeSPLVault {
    /// The owner's wallet record, and the address it was found at.
    pub vokter_wallet: VokterWallet,
    pub vokter_wallet_address: AccountId,
    /// The tenant's policy record, and the address it was found at.
    pub tenant_config: TenantConfig,
    pub tenant_config_address: AccountId,
    /// The owner, who signed the request.
    pub owner: AccountId,
    /// The guardian co-signer, when a guardian signature is present.
    pub guardian: Option<AccountId>,
    /// The mint to create a vault for.
    pub mint: AccountId,
    /// The address the new vault record will live at.
    pub spl_vault_address: AccountId,
    /// The custodial token account created for the vault.
    pub vault_token_account: TokenAccount,
    /// The vault program's own identity, under which addresses derive.
    pub program_id: AccountId,
}

impl InitializeSPLVault {
    /// Authorization for vault creation: wallet address re-derived
    /// from the owner and matched, owner and guardian bindings re-validated,
    /// guardian co-signature present, tenant record at its derived address
    /// and active, vault address derived from (wallet, mint), and the
    /// custodial token account owned by the vault and of the right mint.
    pub open spec fn spec_authorize(&self, tenant_id: AccountId) -> Result<(), VaultError> {
        let wallet_check = spec_check_address(
            derived_address_of(wallet_seeds(self.owner@), self.program_id@),
            self.vokter_wallet_address@,
            VaultError::Authorization(AuthorizationError::WalletAddressMismatch),
        );
        if wallet_check is Err {
            wallet_check
        } else if !self.vokter_wallet.owner_bound(self.owner) {
            Err(VaultError::Authorization(AuthorizationError::OwnerMismatch))
        } else {
            match self.guardian {
                None => Err(VaultError::Authorization(AuthorizationError::MissingGuardianSignature)),
                Some(guardian) => {
                    if !self.vokter_wallet.guardian_bound(guardian) {
                        Err(VaultError::Authorization(AuthorizationError::GuardianMismatch))
                    } else {
                        let tenant_check = spec_check_address(
                            derived_address_of(tenant_seeds(tenant_id@), self.program_id@),
                            self.tenant_config_address@,
                            VaultError::Authorization(AuthorizationError::TenantAddressMismatch),
                        );
                        if tenant_check is Err {
                            tenant_check
                        } else if !self.tenant_config.is_active {
                            Err(VaultError::Policy(PolicyError::TenantNotActive))
                        } else {
                            let vault_check = spec_check_address(
                                derived_address_of(
                                    vault_seeds(self.vokter_wallet_address@, self.mint@),
                                    self.program_id@,
                                ),
                                self.spl_vault_address@,
                                VaultError::Authorization(AuthorizationError::VaultAddressMismatch),
                            );
                            if vault_check is Err {
                                vault_check
                            } else if self.vault_token_account.owner@ != self.spl_vault_address@ {
                                Err(VaultError::Authorization(AuthorizationError::TokenAccountMismatch))
                            } else if self.vault_token_account.mint@ != self.mint@ {
                                Err(VaultError::Authorization(AuthorizationError::MintMismatch))
                            } else {
                                Ok(())
                            }
                        }
                    }
                },
            }
        }
    }

    /// Evaluate the creation gate; no state is touched on failure.
    pub fn authorize(&self, tenant_id: &AccountId) -> (r: Result<(), VaultError>)
        ensures
            r == self.spec_authorize(*tenant_id),
    {
        let wallet_derived = derive_wallet_address(&self.owner, &self.program_id);
        match check_address(
            wallet_derived,
            &self.vokter_wallet_address,
            VaultError::Authorization(AuthorizationError::WalletAddressMismatch),
        ) {
            Err(e) => {
                return Err(e);
            },
            Ok(()) => {},
        }
        if !self.vokter_wallet.owner.eq_id(&self.owner) {
            return Err(VaultError::Authorization(AuthorizationError::OwnerMismatch));
        }
        let guardian = match self.guardian {
            None => {
                return Err(VaultError::Authorization(AuthorizationError::MissingGuardianSignature));
            },
            Some(g) => g,
        };
        if !self.vokter_wallet.guardian.eq_id(&guardian) {
            return Err(VaultError::Authorization(AuthorizationError::GuardianMismatch));
        }
        let tenant_derived = derive_tenant_address(tenant_id, &self.program_id);
        match check_address(
            tenant_derived,
            &self.tenant_config_address,
            VaultError::Authorization(AuthorizationError::TenantAddressMismatch),
        ) {
            Err(e) => {
                return Err(e);
            },
            Ok(()) => {},
        }
        if !self.tenant_config.is_active {
            return Err(VaultError::Policy(PolicyError::TenantNotActive));
        }
        let vault_derived = derive_vault_address(
            &self.vokter_wallet_address,
            &self.mint,
            &self.program_id,
        );
        match check_address(
            vault_derived,
            &self.spl_vault_address,
            VaultError::Authorization(AuthorizationError::VaultAddressMismatch),
        ) {
            Err(e) => {
                return Err(e);
            },
            Ok(()) => {},
        }
        if !self.vault_token_account.owner.eq_id(&self.spl_vault_address) {
            return Err(VaultError::Authorization(AuthorizationError::TokenAccountMismatch));
        }
        if !self.vault_token_account.mint.eq_id(&self.mint) {
            return Err(VaultError::Authorization(AuthorizationError::MintMismatch));
        }
        Ok(())
    }
}

/// Exact outcome of vault creation on every input: the creation checks, then the
/// tenant's mint policy, then the fresh record and its event.
pub open spec fn spec_initialize_spl_vault(
    accounts: InitializeSPLVault,
    tenant_id: AccountId,
    now: i64,
) -> Result<(SPLVault, SPLVaultInitialized), VaultError> {
    match accounts.spec_authorize(tenant_id) {
        Err(e) => Err(e),
        Ok(()) => match accounts.guardian {
            // Authorization already demands a guardian; the arm keeps the
            // outcome total.
            None => Err(VaultError::Authorization(AuthorizationError::MissingGuardianSignature)),
            Some(guardian) => match accounts.tenant_config.spec_validate_mint_allowed() {
                Err(e) => Err(e),
                Ok(()) => Ok(
                    (
                        SPLVault {
                            vokter_wallet: accounts.vokter_wallet_address,
                            mint: accounts.mint,
                            vault_token_account: accounts.vault_token_account.address,
                            created_at: now,
                            total_deposited: 0u64,
                            total_withdrawn: 0u64,
                            last_activity: now,
                            status: SPLVaultStatus::Active,
                            is_paused: false,
                        },
                        SPLVaultInitialized {
                            wallet: accounts.vokter_wallet_address,
                            spl_vault: accounts.spl_vault_address,
                            mint: accounts.mint,
                            vault_token_account: accounts.vault_token_account.address,
                            owner: accounts.owner,
                            guardian,
                            timestamp: now,
                        },
                    ),
                ),
            },
        },
    }
}

/// Create a guardian-protected vault for one (wallet, mint) pair. Requires
/// the owner and guardian signatures and an active tenant whose mint policy
/// admits the asset. The fresh vault is `Active`, unpaused, with both
/// cumulative counters at zero.
pub fn initialize_spl_vault(
    accounts: &InitializeSPLVault,
    tenant_id: &AccountId,
    now: i64,
) -> (r: Result<(SPLVault, SPLVaultInitialized), VaultError>)
    ensures
        r == spec_initialize_spl_vault(*accounts, *tenant_id, now),
        r matches Ok(p) ==> p.0.status == SPLVaultStatus::Active && !p.0.is_paused
            && p.0.total_deposited == 0 && p.0.total_withdrawn == 0,
{
    match accounts.authorize(tenant_id) {
        Err(e) => {
            return Err(e);
        },
        Ok(()) => {},
    }
    let guardian = match accounts.guardian {
        None => {
            return Err(VaultError::Authorization(AuthorizationError::MissingGuardianSignature));
        },
        Some(g) => g,
    };
    match accounts.tenant_config.validate_mint_allowed(&accounts.mint) {
        Err(e) => {
            return Err(e);
        },
        Ok(()) => {},
    }
    let vault = SPLVault {
        vokter_wallet: accounts.vokter_wallet_address,
        mint: accounts.mint,
        vault_token_account: accounts.vault_token_account.address,
        created_at: now,
        total_deposited: 0,
        total_withdrawn: 0,
        last_activity: now,
        status: SPLVaultStatus::Active,
        is_paused: false,
    };
    let event = SPLVaultInitialized {
        wallet: accounts.vokter_wallet_address,
        spl_vault: accounts.spl_vault_address,
        mint: accounts.mint,
        vault_token_account: accounts.vault_token_account.address,
        owner: accounts.owner,
        guardian,
        timestamp: now,
    };
    Ok((vault, event))
}

/// The accounts a deposit request presents. Deposits are single-signer:
/// moving funds into custody is low-risk, so no guardian co-signature is
/// asked for.
#[derive(Clone, Copy, Debug)]
pub struct DepositSPLTokens {
    /// The owner's wallet record, and the address it was found at.
    pub vokter_wallet: VokterWallet,
    pub vokter_wallet_address: AccountId,
    /// The tenant's policy record, and the address it was found at.
    pub tenant_config: TenantConfig,
    pub tenant_config_address: AccountId,
    /// The owner, who signed the request.
    pub owner: AccountId,
    /// The address the vault record was found at.
    pub spl_vault_address: AccountId,
    /// The mint being deposited.
    pub mint: AccountId,
    /// The owner's token account, the source of the deposit.
    pub owner_token_account: TokenAccount,
    /// The vault's custodial token account, the destination.
    pub vault_token_account: TokenAccount,
    /// The vault program's own identity, under which addresses derive.
    pub program_id: AccountId,
}

impl DepositSPLTokens {
    /// Authorization for a deposit: wallet address re-derived and
    /// matched, owner binding re-validated, tenant record at its derived
    /// address and active, vault record at the address derived from
    /// (wallet, mint) and bound to this mint and custodial token account,
    /// and the source token account owned by the owner and of the same
    /// mint.
    pub open spec fn spec_authorize(&self, vault: SPLVault, tenant_id: AccountId) -> Result<
        (),
        VaultError,
    > {
        let wallet_check = spec_check_address(
            derived_address_of(wallet_seeds(self.owner@), self.program_id@),
            self.vokter_wallet_address@,
            VaultError::Authorization(AuthorizationError::WalletAddressMismatch),
        );
        if wallet_check is Err {
            wallet_check
        } else if !self.vokter_wallet.owner_bound(self.owner) {
            Err(VaultError::Authorization(AuthorizationError::OwnerMismatch))
        } else {
            let tenant_check = spec_check_address(
                derived_address_of(tenant_seeds(tenant_id@), self.program_id@),
                self.tenant_config_address@,
                VaultError::Authorization(AuthorizationError::TenantAddressMismatch),
            );
            if tenant_check is Err {
                tenant_check
            } else if !self.tenant_config.is_active {
                Err(VaultError::Policy(PolicyError::TenantNotActive))
            } else {
                let vault_check = spec_check_address(
                    derived_address_of(
                        vault_seeds(self.vokter_wallet_address@, self.mint@),
                        self.program_id@,
                    ),
                    self.spl_vault_address@,
                    VaultError::Authorization(AuthorizationError::VaultAddressMismatch),
                );
                if vault_check is Err {
                    vault_check
                } else if vault.mint@ != self.mint@ {
                    Err(VaultError::Authorization(AuthorizationError::MintMismatch))
                } else if vault.vault_token_account@ != self.vault_token_account.address@ {
                    Err(VaultError::Authorization(AuthorizationError::TokenAccountMismatch))
                } else if self.owner_token_account.owner@ != self.owner@ {
                    Err(VaultError::Authorization(AuthorizationError::TokenAccountMismatch))
                } else if self.owner_token_account.mint@ != self.mint@ {
                    Err(VaultError::Authorization(AuthorizationError::MintMismatch))
                } else {
                    Ok(())
                }
            }
        }
    }

    /// Evaluate the deposit gate; no state is touched on failure.
    pub fn authorize(&self, vault: &SPLVault, tenant_id: &AccountId) -> (r: Result<
        (),
        VaultError,
    >)
        ensures
            r == self.spec_authorize(*vault, *tenant_id),
    {
        let wallet_derived = derive_wallet_address(&self.owner, &self.program_id);
        match check_address(
            wallet_derived,
            &self.vokter_wallet_address,
            VaultError::Authorization(AuthorizationError::WalletAddressMismatch),
        ) {
            Err(e) => {
                return Err(e);
            },
            Ok(()) => {},
        }
        if !self.vokter_wallet.owner.eq_id(&self.owner) {
            return Err(VaultError::Authorization(AuthorizationError::OwnerMismatch));
        }
        let tenant_derived = derive_tenant_address(tenant_id, &self.program_id);
        match check_address(
            tenant_derived,
            &self.tenant_config_address,
            VaultError::Authorization(AuthorizationError::TenantAddressMismatch),
        ) {
            Err(e) => {
                return Err(e);
            },
            Ok(()) => {},
        }
        if !self.tenant_config.is_active {
            return Err(VaultError::Policy(PolicyError::TenantNotActive));
        }
        let vault_derived = derive_vault_address(
            &self.vokter_wallet_address,
            &self.mint,
            &self.program_id,
        );
        match check_address(
            vault_derived,
            &self.spl_vault_address,
            VaultError::Authorization(AuthorizationError::VaultAddressMismatch),
        ) {
            Err(e) => {
                return Err(e);
            },
            Ok(()) => {},
        }
        if !vault.mint.eq_id(&self.mint) {
            return Err(VaultError::Authorization(AuthorizationError::MintMismatch));
        }
        if !vault.vault_token_account.eq_id(&self.vault_token_account.address) {
            return Err(VaultError::Authorization(AuthorizationError::TokenAccountMismatch));
        }
        if !self.owner_token_account.owner.eq_id(&self.owner) {
            return Err(VaultError::Authorization(AuthorizationError::TokenAccountMismatch));
        }
        if !self.owner_token_account.mint.eq_id(&self.mint) {
            return Err(VaultError::Authorization(AuthorizationError::MintMismatch));
        }
        Ok(())
    }
}

/// Exact outcome of a deposit on every input: the deposit checks, then the zero-amount
/// check, the tenant's mint policy, the vault's operational state, and the
/// checked counter update; on success the booked record, the inbound
/// transfer to perform, and the event.
pub open spec fn spec_deposit_spl_tokens(
    accounts: DepositSPLTokens,
    vault: SPLVault,
    tenant_id: AccountId,
    amount: u64,
    now: i64,
) -> Result<(SPLVault, TokenTransfer, SPLTokensDeposited), VaultError> {
    match accounts.spec_authorize(vault, tenant_id) {
        Err(e) => Err(e),
        Ok(()) => if amount == 0 {
            Err(VaultError::Policy(PolicyError::InvalidAmount))
        } else if !accounts.tenant_config.spec_mint_allowed() {
            Err(VaultError::Policy(PolicyError::MintNotAllowed))
        } else if !vault.spec_is_operational() {
            Err(VaultError::State(StateError::VaultPaused))
        } else if vault.total_deposited + amount > u64::MAX {
            Err(VaultError::Arithmetic(ArithmeticError::CounterOverflow))
        } else {
            Ok(
                (
                    vault.spec_with_deposit(amount, now),
                    TokenTransfer {
                        from: accounts.owner_token_account.address,
                        to: accounts.vault_token_account.address,
                        authority: accounts.owner,
                        mint: accounts.mint,
                        amount,
                    },
                    SPLTokensDeposited {
                        wallet: vault.vokter_wallet,
                        spl_vault: accounts.spl_vault_address,
                        mint: vault.mint,
                        owner: accounts.owner,
                        amount,
                        timestamp: now,
                    },
                ),
            )
        },
    }
}

/// Deposit `amount` into the vault's custody. Owner signature only. On
/// success the cumulative deposit counter grows by exactly `amount` and the
/// returned transfer moves the funds from the owner's token account into
/// custody; on any failure the vault record is left untouched.
pub fn deposit_spl_tokens(
    accounts: &DepositSPLTokens,
    vault: &mut SPLVault,
    tenant_id: &AccountId,
    amount: u64,
    now: i64,
) -> (r: Result<(TokenTransfer, SPLTokensDeposited), VaultError>)
    ensures
        (match spec_deposit_spl_tokens(*accounts, *old(vault), *tenant_id, amount, now) {
            Ok(p) => r matches Ok(q) && *final(vault) == p.0 && q.0 == p.1 && q.1 == p.2,
            Err(e) => r == Err::<(TokenTransfer, SPLTokensDeposited), VaultError>(e)
                && *final(vault) == *old(vault),
        }),
        r is Err ==> *final(vault) == *old(vault),
        r is Ok ==> final(vault).total_deposited == old(vault).total_deposited + amount,
        r is Ok ==> final(vault).total_withdrawn == old(vault).total_withdrawn,
{
    match accounts.authorize(vault, tenant_id) {
        Err(e) => {
            return Err(e);
        },
        Ok(()) => {},
    }
    if amount == 0 {
        return Err(VaultError::Policy(PolicyError::InvalidAmount));
    }
    match accounts.tenant_config.validate_mint_allowed(&accounts.mint) {
        Err(e) => {
            return Err(e);
        },
        Ok(()) => {},
    }
    if !(vault.status == SPLVaultStatus::Active && !vault.is_paused) {
        return Err(VaultError::State(StateError::VaultPaused));
    }
    let new_total = match vault.total_deposited.checked_add(amount) {
        Some(v) => v,
        None => {
            return Err(VaultError::Arithmetic(ArithmeticError::CounterOverflow));
        },
    };
    let wallet = vault.vokter_wallet;
    let mint = vault.mint;
    vault.total_deposited = new_total;
    vault.last_activity = now;
    let transfer = TokenTransfer {
        from: accounts.owner_token_account.address,
        to: accounts.vault_token_account.address,
        authority: accounts.owner,
        mint: accounts.mint,
        amount,
    };
    let event = SPLTokensDeposited {
        wallet,
        spl_vault: accounts.spl_vault_address,
        mint,
        owner: accounts.owner,
        amount,
        timestamp: now,
    };
    Ok((transfer, event))
}

/// The accounts a withdrawal request presents. Withdrawals are the
/// high-risk path: both the owner and the guardian must have signed.
#[derive(Clone, Copy, Debug)]
pub struct WithdrawSPLTokens {
    /// The owner's wallet record, and the address it was found at.
    pub vokter_wallet: VokterWallet,
    pub vokter_wallet_address: AccountId,
    /// The tenant's policy record, and the address it was found at.
    pub tenant_config: TenantConfig,
    pub tenant_config_address: AccountId,
    /// The owner, who signed the request.
    pub owner: AccountId,
    /// The guardian co-signer, when a guardian signature is present.
    pub guardian: Option<AccountId>,
    /// The address the vault record was found at.
    pub spl_vault_address: AccountId,
    /// The mint being withdrawn.
    pub mint: AccountId,
    /// The vault's custodial token account, the source of the withdrawal.
    pub vault_token_account: TokenAccount,
    /// The recipient's token account, the destination.
    pub recipient_token_account: TokenAccount,
    /// The vault program's own identity, under which addresses derive.
    pub program_id: AccountId,
}

impl WithdrawSPLTokens {
    /// Authorization for a withdrawal: everything a deposit
    /// checks, plus the guardian co-signature — present and matching the
    /// guardian bound at wallet creation — and a recipient token account of
    /// the same mint. Evaluated in full before any balance is read.
    pub open spec fn spec_authorize(&self, vault: SPLVault, tenant_id: AccountId) -> Result<
        (),
        VaultError,
    > {
        let wallet_check = spec_check_address(
            derived_address_of(wallet_seeds(self.owner@), self.program_id@),
            self.vokter_wallet_address@,
            VaultError::Authorization(AuthorizationError::WalletAddressMismatch),
        );
        if wallet_check is Err {
            wallet_check
        } else if !self.vokter_wallet.owner_bound(self.owner) {
            Err(VaultError::Authorization(AuthorizationError::OwnerMismatch))
        } else {
            match self.guardian {
                None => Err(VaultError::Authorization(AuthorizationError::MissingGuardianSignature)),
                Some(guardian) => {
                    if !self.vokter_wallet.guardian_bound(guardian) {
                        Err(VaultError::Authorization(AuthorizationError::GuardianMismatch))
                    } else {
                        let tenant_check = spec_check_address(
                            derived_address_of(tenant_seeds(tenant_id@), self.program_id@),
                            self.tenant_config_address@,
                            VaultError::Authorization(AuthorizationError::TenantAddressMismatch),
                        );
                        if tenant_check is Err {
                            tenant_check
                        } else if !self.tenant_config.is_active {
                            Err(VaultError::Policy(PolicyError::TenantNotActive))
                        } else {
                            let vault_check = spec_check_address(
                                derived_address_of(
                                    vault_seeds(self.vokter_wallet_address@, self.mint@),
                                    self.program_id@,
                                ),
                                self.spl_vault_address@,
                                VaultError::Authorization(AuthorizationError::VaultAddressMismatch),
                            );
                            if vault_check is Err {
                                vault_check
                            } else if vault.mint@ != self.mint@ {
                                Err(VaultError::Authorization(AuthorizationError::MintMismatch))
                            } else if vault.vault_token_account@
                                != self.vault_token_account.address@ {
                                Err(VaultError::Authorization(AuthorizationError::TokenAccountMismatch))
                            } else if self.recipient_token_account.mint@ != self.mint@ {
                                Err(VaultError::Authorization(AuthorizationError::MintMismatch))
                            } else {
                                Ok(())
                            }
                        }
                    }
                },
            }
        }
    }

    /// Evaluate the withdrawal gate; no state is touched on failure.
    pub fn authorize(&self, vault: &SPLVault, tenant_id: &AccountId) -> (r: Result<
        (),
        VaultError,
    >)
        ensures
            r == self.spec_authorize(*vault, *tenant_id),
    {
        let wallet_derived = derive_wallet_address(&self.owner, &self.program_id);
        match check_address(
            wallet_derived,
            &self.vokter_wallet_address,
            VaultError::Authorization(AuthorizationError::WalletAddressMismatch),
        ) {
            Err(e) => {
                return Err(e);
            },
            Ok(()) => {},
        }
        if !self.vokter_wallet.owner.eq_id(&self.owner) {
            return Err(VaultError::Authorization(AuthorizationError::OwnerMismatch));
        }
        let guardian = match self.guardian {
            None => {
                return Err(VaultError::Authorization(AuthorizationError::MissingGuardianSignature));
            },
            Some(g) => g,
        };
        if !self.vokter_wallet.guardian.eq_id(&guardian) {
            return Err(VaultError::Authorization(AuthorizationError::GuardianMismatch));
        }
        let tenant_derived = derive_tenant_address(tenant_id, &self.program_id);
        match check_address(
            tenant_derived,
            &self.tenant_config_address,
            VaultError::Authorization(AuthorizationError::TenantAddressMismatch),
        ) {
            Err(e) => {
                return Err(e);
            },
            Ok(()) => {},
        }
        if !self.tenant_config.is_active {
            return Err(VaultError::Policy(PolicyError::TenantNotActive));
        }
        let vault_derived = derive_vault_address(
            &self.vokter_wallet_address,
            &self.mint,
            &self.program_id,
        );
        match check_address(
            vault_derived,
            &self.spl_vault_address,
            VaultError::Authorization(AuthorizationError::VaultAddressMismatch),
        ) {
            Err(e) => {
                return Err(e);
            },
            Ok(()) => {},
        }
        if !vault.mint.eq_id(&self.mint) {
            return Err(VaultError::Authorization(AuthorizationError::MintMismatch));
        }
        if !vault.vault_token_account.eq_id(&self.vault_token_account.address) {
            return Err(VaultError::Authorization(AuthorizationError::TokenAccountMismatch));
        }
        if !self.recipient_token_account.mint.eq_id(&self.mint) {
            return Err(VaultError::Authorization(AuthorizationError::MintMismatch));
        }
        Ok(())
    }
}

/// Exact outcome of a withdrawal on every input: the withdrawal checks (guardian
/// included), then the zero-amount check, the tenant's mint policy, the
/// vault's operational state, the custodial-balance check, and the checked
/// counter update; on success the booked record, the outbound transfer
/// signed by the vault's own derived identity, and the event.
pub open spec fn spec_withdraw_spl_tokens(
    accounts: WithdrawSPLTokens,
    vault: SPLVault,
    tenant_id: AccountId,
    amount: u64,
    now: i64,
) -> Result<(SPLVault, TokenTransfer, SPLTokensWithdrawn), VaultError> {
    match accounts.spec_authorize(vault, tenant_id) {
        Err(e) => Err(e),
        Ok(()) => match accounts.guardian {
            // Authorization already demands a guardian; the arm keeps the
            // outcome total.
            None => Err(VaultError::Authorization(AuthorizationError::MissingGuardianSignature)),
            Some(guardian) => if amount == 0 {
                Err(VaultError::Policy(PolicyError::InvalidAmount))
            } else if !accounts.tenant_config.spec_mint_allowed() {
                Err(VaultError::Policy(PolicyError::MintNotAllowed))
            } else if !vault.spec_is_operational() {
                Err(VaultError::State(StateError::VaultPaused))
            } else if accounts.vault_token_account.amount < amount {
                Err(VaultError::State(StateError::InsufficientFunds))
            } else if vault.total_withdrawn + amount > u64::MAX {
                Err(VaultError::Arithmetic(ArithmeticError::CounterOverflow))
            } else {
                Ok(
                    (
                        vault.spec_with_withdrawal(amount, now),
                        TokenTransfer {
                            from: accounts.vault_token_account.address,
                            to: accounts.recipient_token_account.address,
                            authority: accounts.spl_vault_address,
                            mint: accounts.mint,
                            amount,
                        },
                        SPLTokensWithdrawn {
                            wallet: vault.vokter_wallet,
                            spl_vault: accounts.spl_vault_address,
                            mint: vault.mint,
                            owner: accounts.owner,
                            guardian,
                            recipient: accounts.recipient_token_account.owner,
                            amount,
                            timestamp: now,
                        },
                    ),
                )
            },
        },
    }
}

/// Withdraw `amount` from custody to the recipient. Owner and guardian
/// signatures both required; the vault's own derived identity authorizes
/// the outbound transfer. Fails on insufficient custodial balance, and on
/// any failure the vault record — its cumulative withdrawal counter
/// included — is left untouched.
pub fn withdraw_spl_tokens(
    accounts: &WithdrawSPLTokens,
    vault: &mut SPLVault,
    tenant_id: &AccountId,
    amount: u64,
    now: i64,
) -> (r: Result<(TokenTransfer, SPLTokensWithdrawn), VaultError>)
    ensures
        (match spec_withdraw_spl_tokens(*accounts, *old(vault), *tenant_id, amount, now) {
            Ok(p) => r matches Ok(q) && *final(vault) == p.0 && q.0 == p.1 && q.1 == p.2,
            Err(e) => r == Err::<(TokenTransfer, SPLTokensWithdrawn), VaultError>(e)
                && *final(vault) == *old(vault),
        }),
        r is Err ==> *final(vault) == *old(vault),
        r is Ok ==> final(vault).total_withdrawn == old(vault).total_withdrawn + amount,
        r is Ok ==> final(vault).total_deposited == old(vault).total_deposited,
{
    match accounts.authorize(vault, tenant_id) {
        Err(e) => {
            return Err(e);
        },
        Ok(()) => {},
    }
    let guardian = match accounts.guardian {
        None => {
            return Err(VaultError::Authorization(AuthorizationError::MissingGuardianSignature));
        },
        Some(g) => g,
    };
    if amount == 0 {
        return Err(VaultError::Policy(PolicyError::InvalidAmount));
    }
    match accounts.tenant_config.validate_mint_allowed(&accounts.mint) {
        Err(e) => {
            return Err(e);
        },
        Ok(()) => {},
    }
    if !(vault.status == SPLVaultStatus::Active && !vault.is_paused) {
        return Err(VaultError::State(StateError::VaultPaused));
    }
    if accounts.vault_token_account.amount < amount {
        return Err(VaultError::State(StateError::InsufficientFunds));
    }
    let new_total = match vault.total_withdrawn.checked_add(amount) {
        Some(v) => v,
        None => {
            return Err(VaultError::Arithmetic(ArithmeticError::CounterOverflow));
        },
    };
    let wallet = vault.vokter_wallet;
    let mint = vault.mint;
    vault.total_withdrawn = new_total;
    vault.last_activity = now;
    let transfer = TokenTransfer {
        from: accounts.vault_token_account.address,
        to: accounts.recipient_token_account.address,
        authority: accounts.spl_vault_address,
        mint: accounts.mint,
        amount,
    };
    let event = SPLTokensWithdrawn {
        wallet,
        spl_vault: accounts.spl_vault_address,
        mint,
        owner: accounts.owner,
        guardian,
        recipient: accounts.recipient_token_account.owner,
        amount,
        timestamp: now,
    };
    Ok((transfer, event))
}

/// Deposits accumulate: booking `a` and then `b` leaves the cumulative
/// deposit counter exactly where one deposit of `a + b` leaves it, and both
/// grow it by exactly the sum, given no intervening withdrawal.
pub proof fn lemma_deposits_accumulate(
    accounts: DepositSPLTokens,
    vault: SPLVault,
    tenant_id: AccountId,
    a: u64,
    b: u64,
    t1: i64,
    t2: i64,
    v1: SPLVault,
    v2: SPLVault,
)
    requires
        a + b <= u64::MAX,
        spec_deposit_spl_tokens(accounts, vault, tenant_id, a, t1) matches Ok(first) && first.0 == v1,
        spec_deposit_spl_tokens(accounts, v1, tenant_id, b, t2) matches Ok(second) && second.0 == v2,
    ensures
        v2.total_deposited == vault.total_deposited + a + b,
        spec_deposit_spl_tokens(accounts, vault, tenant_id, (a + b) as u64, t2) matches Ok(combined)
            && combined.0.total_deposited == v2.total_deposited,
{
}

/// A withdrawal without a guardian co-signature always fails, for any
/// amount and any vault state; whenever the wallet binding itself is in
/// order, the failure is precisely the missing-guardian error.
pub proof fn lemma_withdraw_requires_guardian(
    accounts: WithdrawSPLTokens,
    vault: SPLVault,
    tenant_id: AccountId,
    amount: u64,
    now: i64,
)
    requires
        accounts.guardian is None,
    ensures
        spec_withdraw_spl_tokens(accounts, vault, tenant_id, amount, now) is Err,
        (spec_check_address(
            derived_address_of(wallet_seeds(accounts.owner@), accounts.program_id@),
            accounts.vokter_wallet_address@,
            VaultError::Authorization(AuthorizationError::WalletAddressMismatch),
        ) is Ok && accounts.vokter_wallet.owner_bound(accounts.owner))
            ==> spec_withdraw_spl_tokens(accounts, vault, tenant_id, amount, now) == Err::<
            (SPLVault, TokenTransfer, SPLTokensWithdrawn),
            VaultError,
        >(VaultError::Authorization(AuthorizationError::MissingGuardianSignature)),
{
}

/// Requesting more than the vault's custodial balance always fails — with
/// the insufficient-funds error once every authorization and policy check
/// has passed — and, by `withdraw_spl_tokens`'s contract, leaves
/// `total_withdrawn` unchanged.
pub proof fn lemma_insufficient_balance_fails(
    accounts: WithdrawSPLTokens,
    vault: SPLVault,
    tenant_id: AccountId,
    amount: u64,
    now: i64,
)
    requires
        amount > accounts.vault_token_account.amount,
    ensures
        spec_withdraw_spl_tokens(accounts, vault, tenant_id, amount, now) is Err,
        (accounts.spec_authorize(vault, tenant_id) is Ok
            && accounts.tenant_config.spec_mint_allowed() && vault.spec_is_operational())
            ==> spec_withdraw_spl_tokens(accounts, vault, tenant_id, amount, now) == Err::<
            (SPLVault, TokenTransfer, SPLTokensWithdrawn),
            VaultError,
        >(VaultError::State(StateError::InsufficientFunds)),
{
}

} // verus!
