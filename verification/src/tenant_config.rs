//! Per-tenant policy: fee rate, transaction bounds, mint policy, activation
//! flag and administrative identities, with the fee engine that computes a
//! bounded, overflow-safe fee from a policy and an amount.

use vstd::prelude::*;

use crate::derivation::{
    check_address, derive_tenant_address, derived_address_of, spec_check_address, tenant_seeds,
};
use crate::errors::{ArithmeticError, AuthorizationError, PolicyError, VaultError};
use crate::ids::AccountId;

verus! {

/// Hard cap on the fee rate, in basis points (5%). No update may exceed it.
pub const MAX_FEE_BASIS_POINTS: u64 = 500;
/// Lower bound of the fee-rate range.
pub const MIN_FEE_BASIS_POINTS: u64 = 0;
/// Default daily transaction cap for a newly onboarded tenant.
pub const DEFAULT_MAX_DAILY_TRANSACTIONS: u16 = 500;
/// Default maximum transaction amount, in the asset's base unit.
pub const DEFAULT_MAX_TRANSACTION_AMOUNT: u64 = 1_000_000_000_000;
/// Default minimum transaction amount, in the asset's base unit.
pub const DEFAULT_MIN_TRANSACTION_AMOUNT: u64 = 50_000_000;
/// Policy-independent absolute floor on a computed fee.
pub const MIN_ABSOLUTE_FEE: u64 = 1_000_000;
/// Policy-independent absolute ceiling on a computed fee.
pub const MAX_ABSOLUTE_FEE: u64 = 100_000_000;

/// Tenant-level rule governing which fungible-asset mints may be vaulted.
#[derive(Clone, Copy, Debug, PartialEq, Eq, Structural)]
pub enum MintPolicy {
    /// Allow every mint.
    AllowAll,
    /// Allow only specific mints. No allowlist storage exists yet, so this
    /// policy rejects every mint; an allowlist store would be a new,
    /// separately specified component.
    Allowlist,
    /// Block every mint.
    BlockAll,
}

impl Default for MintPolicy {
    fn default() -> (r: Self)
        ensures
            r == MintPolicy::AllowAll,
    {
        MintPolicy::AllowAll
    }
}

/// One tenant's policy record. Created once by the onboarding authority,
/// mutated only through the admin-gated update operations, never deleted.
#[derive(Clone, Copy, Debug)]
pub struct TenantConfig {
    pub tenant_id: AccountId,
    pub treasury: AccountId,
    pub admin: AccountId,
    pub fee_basis_points: u64,
    pub is_active: bool,
    pub created_at: i64,
    pub updated_at: i64,
    pub version: u8,
    pub max_daily_transactions: u16,
    pub max_transaction_amount: u64,
    pub min_transaction_amount: u64,
    pub mint_policy: MintPolicy,
}

impl TenantConfig {
    /// The record's internal invariant: the fee rate never exceeds the hard
    /// cap, the treasury is distinct from the admin, and the tenant identity
    /// is not the zero identity.
    pub open spec fn wf(&self) -> bool {
        &&& self.fee_basis_points <= MAX_FEE_BASIS_POINTS
        &&& self.treasury@ != self.admin@
        &&& !self.tenant_id.spec_is_zero()
    }

    pub open spec fn spec_initialize_ok(
        tenant_id: AccountId,
        treasury: AccountId,
        admin: AccountId,
        fee_basis_points: u64,
    ) -> bool {
        &&& fee_basis_points <= MAX_FEE_BASIS_POINTS
        &&& treasury@ != admin@
        &&& !tenant_id.spec_is_zero()
    }

    pub open spec fn spec_initialize_err(
        tenant_id: AccountId,
        treasury: AccountId,
        admin: AccountId,
        fee_basis_points: u64,
    ) -> VaultError {
        if fee_basis_points > MAX_FEE_BASIS_POINTS {
            VaultError::Policy(PolicyError::InvalidFeeRate)
        } else if treasury@ == admin@ {
            VaultError::Policy(PolicyError::TreasuryCannotBeAdmin)
        } else {
            VaultError::Policy(PolicyError::InvalidTenantId)
        }
    }

    /// The record a successful `initialize` writes: the given identities and
    /// fee rate, default limits, every mint allowed, the tenant active.
    pub open spec fn spec_initialized(
        tenant_id: AccountId,
        treasury: AccountId,
        admin: AccountId,
        fee_basis_points: u64,
        now: i64,
    ) -> TenantConfig {
        TenantConfig {
            tenant_id,
            treasury,
            admin,
            fee_basis_points,
            is_active: true,
            created_at: now,
            updated_at: now,
            version: 1u8,
            max_daily_transactions: DEFAULT_MAX_DAILY_TRANSACTIONS,
            max_transaction_amount: DEFAULT_MAX_TRANSACTION_AMOUNT,
            min_transaction_amount: DEFAULT_MIN_TRANSACTION_AMOUNT,
            mint_policy: MintPolicy::AllowAll,
        }
    }

    /// Set up a tenant's policy record. Rejects a fee rate above the hard
    /// cap, a treasury equal to the admin, and the zero tenant identity; on
    /// any rejection the record is left untouched.
    pub fn initialize(
        &mut self,
        tenant_id: AccountId,
        treasury: AccountId,
        admin: AccountId,
        fee_basis_points: u64,
        now: i64,
    ) -> (r: Result<(), VaultError>)
        ensures
            Self::spec_initialize_ok(tenant_id, treasury, admin, fee_basis_points) ==> {
                &&& r == Ok::<(), VaultError>(())
                &&& *final(self) == Self::spec_initialized(
                    tenant_id,
                    treasury,
                    admin,
                    fee_basis_points,
                    now,
                )
                &&& final(self).wf()
            },
            !Self::spec_initialize_ok(tenant_id, treasury, admin, fee_basis_points) ==> {
                &&& r == Err::<(), VaultError>(
                    Self::spec_initialize_err(tenant_id, treasury, admin, fee_basis_points),
                )
                &&& *final(self) == *old(self)
            },
    {
        if fee_basis_points > MAX_FEE_BASIS_POINTS {
            return Err(VaultError::Policy(PolicyError::InvalidFeeRate));
        }
        if treasury.eq_id(&admin) {
            return Err(VaultError::Policy(PolicyError::TreasuryCannotBeAdmin));
        }
        if tenant_id.is_zero() {
            return Err(VaultError::Policy(PolicyError::InvalidTenantId));
        }
        self.tenant_id = tenant_id;
        self.treasury = treasury;
        self.admin = admin;
        self.fee_basis_points = fee_basis_points;
        self.is_active = true;
        self.created_at = now;
        self.updated_at = now;
        self.version = 1;
        self.max_daily_transactions = DEFAULT_MAX_DAILY_TRANSACTIONS;
        self.max_transaction_amount = DEFAULT_MAX_TRANSACTION_AMOUNT;
        self.min_transaction_amount = DEFAULT_MIN_TRANSACTION_AMOUNT;
        self.mint_policy = MintPolicy::AllowAll;
        Ok(())
    }

    pub open spec fn spec_update_treasury_ok(&self, new_treasury: AccountId) -> bool {
        &&& new_treasury@ != self.admin@
        &&& !new_treasury.spec_is_zero()
    }

    pub open spec fn spec_update_treasury_err(&self, new_treasury: AccountId) -> VaultError {
        if new_treasury@ == self.admin@ {
            VaultError::Policy(PolicyError::TreasuryCannotBeAdmin)
        } else {
            VaultError::Policy(PolicyError::InvalidTreasuryAddress)
        }
    }

    /// Point the tenant's fees at a new treasury. Rejects a treasury equal
    /// to the admin and the zero identity; the record is untouched on
    /// rejection.
    pub fn update_treasury(&mut self, new_treasury: AccountId, now: i64) -> (r: Result<
        (),
        VaultError,
    >)
        ensures
            old(self).spec_update_treasury_ok(new_treasury) ==> {
                &&& r == Ok::<(), VaultError>(())
                &&& *final(self) == (TenantConfig {
                    treasury: new_treasury,
                    updated_at: now,
                    ..*old(self)
                })
            },
            !old(self).spec_update_treasury_ok(new_treasury) ==> {
                &&& r == Err::<(), VaultError>(old(self).spec_update_treasury_err(new_treasury))
                &&& *final(self) == *old(self)
            },
            old(self).wf() && r is Ok ==> final(self).wf(),
    {
        if new_treasury.eq_id(&self.admin) {
            return Err(VaultError::Policy(PolicyError::TreasuryCannotBeAdmin));
        }
        if new_treasury.is_zero() {
            return Err(VaultError::Policy(PolicyError::InvalidTreasuryAddress));
        }
        self.treasury = new_treasury;
        self.updated_at = now;
        Ok(())
    }

    /// Change the tenant's fee rate. Any value above the hard cap of 500
    /// basis points is rejected, so the stored rate stays within
    /// `[0, MAX_FEE_BASIS_POINTS]` after every update.
    pub fn update_fee_rate(&mut self, new_fee_basis_points: u64, now: i64) -> (r: Result<
        (),
        VaultError,
    >)
        ensures
            new_fee_basis_points <= MAX_FEE_BASIS_POINTS ==> {
                &&& r == Ok::<(), VaultError>(())
                &&& *final(self) == (TenantConfig {
                    fee_basis_points: new_fee_basis_points,
                    updated_at: now,
                    ..*old(self)
                })
            },
            new_fee_basis_points > MAX_FEE_BASIS_POINTS ==> {
                &&& r == Err::<(), VaultError>(VaultError::Policy(PolicyError::InvalidFeeRate))
                &&& *final(self) == *old(self)
            },
            r is Ok ==> final(self).fee_basis_points <= MAX_FEE_BASIS_POINTS,
            old(self).wf() ==> final(self).wf(),
    {
        if new_fee_basis_points > MAX_FEE_BASIS_POINTS {
            return Err(VaultError::Policy(PolicyError::InvalidFeeRate));
        }
        self.fee_basis_points = new_fee_basis_points;
        self.updated_at = now;
        Ok(())
    }

    /// Raw fee before clamping: `amount * fee_basis_points / 10000`, rounded
    /// up by adding 9999 before the integer division.
    pub open spec fn spec_raw_fee(fee_basis_points: int, amount: int) -> int {
        (amount * fee_basis_points + 9999) / 10000
    }

    /// The raw fee clamped into the absolute fee window.
    pub open spec fn spec_bounded_fee(raw: int) -> int {
        if raw < MIN_ABSOLUTE_FEE {
            MIN_ABSOLUTE_FEE as int
        } else if raw > MAX_ABSOLUTE_FEE {
            MAX_ABSOLUTE_FEE as int
        } else {
            raw
        }
    }

    /// Exact outcome of `calculate_fee` on every policy and amount.
    pub open spec fn spec_calculate_fee(&self, amount: u64) -> Result<u64, VaultError> {
        if self.fee_basis_points == 0 {
            Ok(0u64)
        } else if amount == 0 {
            Err(VaultError::Policy(PolicyError::InvalidAmount))
        } else if amount > self.max_transaction_amount {
            Err(VaultError::Policy(PolicyError::TransactionTooLarge))
        } else if amount > u64::MAX / 10000 {
            Err(VaultError::Arithmetic(ArithmeticError::FeeCalculationOverflow))
        } else if amount * self.fee_basis_points + 9999 > u64::MAX {
            Err(VaultError::Arithmetic(ArithmeticError::FeeCalculationOverflow))
        } else {
            let bounded = Self::spec_bounded_fee(
                Self::spec_raw_fee(self.fee_basis_points as int, amount as int),
            );
            if bounded >= amount {
                Err(VaultError::Policy(PolicyError::FeeExceedsAmount))
            } else if bounded * 10000 / (amount as int) > 500 {
                Err(VaultError::Policy(PolicyError::InvalidFeeRate))
            } else {
                Ok(bounded as u64)
            }
        }
    }

    /// Compute the fee owed on `amount` under this policy: zero when the fee
    /// rate is zero; otherwise the raw basis-point fee rounded up, clamped
    /// into the absolute fee window, and rejected if it would consume the
    /// whole transfer or push the effective rate above the hard cap. Every
    /// arithmetic step is checked; an overflow surfaces as an error, never a
    /// wrap.
    pub fn calculate_fee(&self, amount: u64) -> (r: Result<u64, VaultError>)
        ensures
            r == self.spec_calculate_fee(amount),
    {
        if self.fee_basis_points == 0 {
            return Ok(0);
        }
        if amount == 0 {
            return Err(VaultError::Policy(PolicyError::InvalidAmount));
        }
        if amount > self.max_transaction_amount {
            return Err(VaultError::Policy(PolicyError::TransactionTooLarge));
        }
        let max_safe_amount: u64 = u64::MAX / 10000;
        if amount > max_safe_amount {
            return Err(VaultError::Arithmetic(ArithmeticError::FeeCalculationOverflow));
        }
        let fee_calculation = match amount.checked_mul(self.fee_basis_points) {
            Some(v) => v,
            None => {
                return Err(VaultError::Arithmetic(ArithmeticError::FeeCalculationOverflow));
            },
        };
        let fee_with_rounding = match fee_calculation.checked_add(9999) {
            Some(v) => v,
            None => {
                return Err(VaultError::Arithmetic(ArithmeticError::FeeCalculationOverflow));
            },
        };
        let raw_fee = fee_with_rounding / 10000;
        let bounded_fee = if raw_fee < MIN_ABSOLUTE_FEE {
            MIN_ABSOLUTE_FEE
        } else if raw_fee > MAX_ABSOLUTE_FEE {
            MAX_ABSOLUTE_FEE
        } else {
            raw_fee
        };
        if bounded_fee >= amount {
            return Err(VaultError::Policy(PolicyError::FeeExceedsAmount));
        }
        let fee_ratio = bounded_fee * 10000 / amount;
        if fee_ratio > 500 {
            return Err(VaultError::Policy(PolicyError::InvalidFeeRate));
        }
        Ok(bounded_fee)
    }

    pub open spec fn spec_validate_transaction_limits(&self, amount: u64) -> Result<
        (),
        VaultError,
    > {
        if amount < self.min_transaction_amount {
            Err(VaultError::Policy(PolicyError::TransactionTooSmall))
        } else if amount > self.max_transaction_amount {
            Err(VaultError::Policy(PolicyError::TransactionTooLarge))
        } else {
            Ok(())
        }
    }

    /// Accept exactly the amounts inside the tenant's
    /// `[min_transaction_amount, max_transaction_amount]` window.
    pub fn validate_transaction_limits(&self, amount: u64) -> (r: Result<(), VaultError>)
        ensures
            r == self.spec_validate_transaction_limits(amount),
    {
        if amount < self.min_transaction_amount {
            return Err(VaultError::Policy(PolicyError::TransactionTooSmall));
        }
        if amount > self.max_transaction_amount {
            return Err(VaultError::Policy(PolicyError::TransactionTooLarge));
        }
        Ok(())
    }

    /// Whether the tenant's mint policy lets any mint through at all:
    /// `AllowAll` passes, `BlockAll` rejects, and `Allowlist` rejects every
    /// mint while no allowlist storage exists.
    pub open spec fn spec_mint_allowed(&self) -> bool {
        self.mint_policy == MintPolicy::AllowAll
    }

    pub open spec fn spec_validate_mint_allowed(&self) -> Result<(), VaultError> {
        if self.spec_mint_allowed() {
            Ok(())
        } else {
            Err(VaultError::Policy(PolicyError::MintNotAllowed))
        }
    }

    /// Gate consulted by every vault operation: pass exactly when the
    /// tenant's mint policy is `AllowAll`.
    pub fn validate_mint_allowed(&self, _mint: &AccountId) -> (r: Result<(), VaultError>)
        ensures
            r == self.spec_validate_mint_allowed(),
    {
        match self.mint_policy {
            MintPolicy::AllowAll => Ok(()),
            MintPolicy::BlockAll => Err(VaultError::Policy(PolicyError::MintNotAllowed)),
            MintPolicy::Allowlist => Err(VaultError::Policy(PolicyError::MintNotAllowed)),
        }
    }

    /// Replace the tenant's mint policy; unconditional apart from the
    /// admin gating done by the caller's account validation.
    pub fn update_mint_policy(&mut self, new_policy: MintPolicy, now: i64) -> (r: Result<
        (),
        VaultError,
    >)
        ensures
            r == Ok::<(), VaultError>(()),
            *final(self) == (TenantConfig { mint_policy: new_policy, updated_at: now, ..*old(self) }),
            old(self).wf() ==> final(self).wf(),
    {
        self.mint_policy = new_policy;
        self.updated_at = now;
        Ok(())
    }
}

/// The accounts a tenant-onboarding request presents: the address the new
/// policy record will live at, and the onboarding authority as signer.
#[derive(Clone, Copy, Debug)]
pub struct InitializeTenantConfig {
    /// The address the new policy record will live at.
    pub tenant_config_address: AccountId,
    /// The onboarding authority, who signed the request.
    pub authority: AccountId,
    /// The vault program's own identity, under which addresses derive.
    pub program_id: AccountId,
}

impl InitializeTenantConfig {
    /// Authorization for onboarding: the policy record's address
    /// must be the one derived from the tenant identity.
    pub open spec fn spec_authorize(&self, tenant_id: AccountId) -> Result<(), VaultError> {
        spec_check_address(
            derived_address_of(tenant_seeds(tenant_id@), self.program_id@),
            self.tenant_config_address@,
            VaultError::Authorization(AuthorizationError::TenantAddressMismatch),
        )
    }

    /// Evaluate the onboarding gate; no state is touched on failure.
    pub fn authorize(&self, tenant_id: &AccountId) -> (r: Result<(), VaultError>)
        ensures
            r == self.spec_authorize(*tenant_id),
    {
        let derived = derive_tenant_address(tenant_id, &self.program_id);
        check_address(
            derived,
            &self.tenant_config_address,
            VaultError::Authorization(AuthorizationError::TenantAddressMismatch),
        )
    }
}

/// The accounts a tenant-policy update presents: the policy record at its
/// derived address, and the tenant's admin as signer. Every update
/// operation is admin-only through this gate.
#[derive(Clone, Copy, Debug)]
pub struct UpdateTenantConfig {
    /// The address the policy record was found at.
    pub tenant_config_address: AccountId,
    /// The signing admin.
    pub admin: AccountId,
    /// The vault program's own identity, under which addresses derive.
    pub program_id: AccountId,
}

impl UpdateTenantConfig {
    /// Authorization for any policy update: the record must sit at
    /// the address derived from its own stored tenant identity, and the
    /// signer must be the record's admin.
    pub open spec fn spec_authorize(&self, tenant: TenantConfig) -> Result<(), VaultError> {
        let tenant_check = spec_check_address(
            derived_address_of(tenant_seeds(tenant.tenant_id@), self.program_id@),
            self.tenant_config_address@,
            VaultError::Authorization(AuthorizationError::TenantAddressMismatch),
        );
        if tenant_check is Err {
            tenant_check
        } else if tenant.admin@ != self.admin@ {
            Err(VaultError::Authorization(AuthorizationError::AdminMismatch))
        } else {
            Ok(())
        }
    }

    /// Evaluate the update gate; no state is touched on failure.
    pub fn authorize(&self, tenant: &TenantConfig) -> (r: Result<(), VaultError>)
        ensures
            r == self.spec_authorize(*tenant),
    {
        let derived = derive_tenant_address(&tenant.tenant_id, &self.program_id);
        match check_address(
            derived,
            &self.tenant_config_address,
            VaultError::Authorization(AuthorizationError::TenantAddressMismatch),
        ) {
            Err(e) => {
                return Err(e);
            },
            Ok(()) => {},
        }
        if !tenant.admin.eq_id(&self.admin) {
            return Err(VaultError::Authorization(AuthorizationError::AdminMismatch));
        }
        Ok(())
    }
}

/// Onboard a tenant: the onboarding authority's request is authorized
/// against the derived policy address, then the record is written with its
/// defaults. On any failure the record is left untouched.
pub fn initialize_tenant_config(
    accounts: &InitializeTenantConfig,
    config: &mut TenantConfig,
    tenant_id: &AccountId,
    treasury: AccountId,
    admin: AccountId,
    fee_basis_points: u64,
    now: i64,
) -> (r: Result<(), VaultError>)
    ensures
        accounts.spec_authorize(*tenant_id) matches Err(e) ==> r == Err::<(), VaultError>(e)
            && *final(config) == *old(config),
        accounts.spec_authorize(*tenant_id) is Ok ==> {
            &&& TenantConfig::spec_initialize_ok(*tenant_id, treasury, admin, fee_basis_points)
                ==> r == Ok::<(), VaultError>(()) && *final(config)
                == TenantConfig::spec_initialized(
                *tenant_id,
                treasury,
                admin,
                fee_basis_points,
                now,
            )
            &&& !TenantConfig::spec_initialize_ok(*tenant_id, treasury, admin, fee_basis_points)
                ==> r == Err::<(), VaultError>(
                TenantConfig::spec_initialize_err(*tenant_id, treasury, admin, fee_basis_points),
            ) && *final(config) == *old(config)
        },
{
    match accounts.authorize(tenant_id) {
        Err(e) => {
            return Err(e);
        },
        Ok(()) => {},
    }
    config.initialize(*tenant_id, treasury, admin, fee_basis_points, now)
}

/// Point a tenant's fees at a new treasury; admin-only through the update
/// authorization. On any failure the record is left untouched.
pub fn update_tenant_treasury(
    accounts: &UpdateTenantConfig,
    config: &mut TenantConfig,
    new_treasury: AccountId,
    now: i64,
) -> (r: Result<(), VaultError>)
    ensures
        accounts.spec_authorize(*old(config)) matches Err(e) ==> r == Err::<(), VaultError>(e)
            && *final(config) == *old(config),
        accounts.spec_authorize(*old(config)) is Ok ==> {
            &&& old(config).spec_update_treasury_ok(new_treasury) ==> r == Ok::<(), VaultError>(())
                && *final(config) == (TenantConfig {
                treasury: new_treasury,
                updated_at: now,
                ..*old(config)
            })
            &&& !old(config).spec_update_treasury_ok(new_treasury) ==> r == Err::<(), VaultError>(
                old(config).spec_update_treasury_err(new_treasury),
            ) && *final(config) == *old(config)
        },
{
    match accounts.authorize(config) {
        Err(e) => {
            return Err(e);
        },
        Ok(()) => {},
    }
    config.update_treasury(new_treasury, now)
}

/// Change a tenant's fee rate; admin-only through the update authorization,
/// and never above the hard cap. On any failure the record is left
/// untouched.
pub fn update_tenant_fee_rate(
    accounts: &UpdateTenantConfig,
    config: &mut TenantConfig,
    new_fee_basis_points: u64,
    now: i64,
) -> (r: Result<(), VaultError>)
    ensures
        accounts.spec_authorize(*old(config)) matches Err(e) ==> r == Err::<(), VaultError>(e)
            && *final(config) == *old(config),
        accounts.spec_authorize(*old(config)) is Ok ==> {
            &&& new_fee_basis_points <= MAX_FEE_BASIS_POINTS ==> r == Ok::<(), VaultError>(())
                && *final(config) == (TenantConfig {
                fee_basis_points: new_fee_basis_points,
                updated_at: now,
                ..*old(config)
            })
            &&& new_fee_basis_points > MAX_FEE_BASIS_POINTS ==> r == Err::<(), VaultError>(
                VaultError::Policy(PolicyError::InvalidFeeRate),
            ) && *final(config) == *old(config)
        },
        r is Ok ==> final(config).fee_basis_points <= MAX_FEE_BASIS_POINTS,
        old(config).wf() ==> final(config).wf(),
{
    match accounts.authorize(config) {
        Err(e) => {
            return Err(e);
        },
        Ok(()) => {},
    }
    config.update_fee_rate(new_fee_basis_points, now)
}

/// Replace a tenant's mint policy; admin-only through the update
/// authorization. On a failed authorization the record is left untouched.
pub fn update_tenant_mint_policy(
    accounts: &UpdateTenantConfig,
    config: &mut TenantConfig,
    new_policy: MintPolicy,
    now: i64,
) -> (r: Result<(), VaultError>)
    ensures
        accounts.spec_authorize(*old(config)) matches Err(e) ==> r == Err::<(), VaultError>(e)
            && *final(config) == *old(config),
        accounts.spec_authorize(*old(config)) is Ok ==> r == Ok::<(), VaultError>(())
            && *final(config) == (TenantConfig {
            mint_policy: new_policy,
            updated_at: now,
            ..*old(config)
        }),
{
    match accounts.authorize(config) {
        Err(e) => {
            return Err(e);
        },
        Ok(()) => {},
    }
    config.update_mint_policy(new_policy, now)
}

/// A zero fee rate yields a zero fee, whatever the amount.
pub proof fn lemma_zero_fee_rate(config: TenantConfig, amount: u64)
    requires
        config.fee_basis_points == 0,
    ensures
        config.spec_calculate_fee(amount) == Ok::<u64, VaultError>(0u64),
{
}

/// A fee the engine accepts is always smaller than the amount, and its
/// effective ratio `fee * 10000 / amount` never exceeds the hard cap of 500
/// basis points. (With a zero amount no fee is accepted except the zero fee
/// of a zero rate, where no ratio exists.)
pub proof fn lemma_fee_below_amount(config: TenantConfig, amount: u64, fee: u64)
    requires
        amount > 0,
        config.spec_calculate_fee(amount) == Ok::<u64, VaultError>(fee),
    ensures
        fee < amount,
        fee * 10000 / (amount as int) <= 500,
{
}

/// An amount beyond `u64::MAX / 10000` never reaches the multiplication:
/// with a non-zero fee rate the computation fails, and fails with the
/// overflow error whenever the amount is within the tenant's transaction
/// bound.
pub proof fn lemma_fee_overflow_guard(config: TenantConfig, amount: u64)
    requires
        config.fee_basis_points != 0,
        amount > u64::MAX / 10000,
    ensures
        config.spec_calculate_fee(amount) is Err,
        amount <= config.max_transaction_amount ==> config.spec_calculate_fee(amount) == Err::<
            u64,
            VaultError,
        >(VaultError::Arithmetic(ArithmeticError::FeeCalculationOverflow)),
{
}

} // verus!
