//! Error taxonomy for the vault core: policy violations, authorization
//! failures, state-consistency failures and arithmetic failures, grouped as
//! one sum type so that call sites stay exhaustive.

use vstd::prelude::*;

verus! {

/// A tenant-policy rule was violated.
#[derive(Clone, Copy, Debug, PartialEq, Eq, Structural)]
pub enum PolicyError {
    /// A fee rate above the hard cap of 500 basis points was supplied, or a
    /// computed effective fee ratio exceeded that cap.
    InvalidFeeRate,
    /// The treasury identity may not equal the admin identity.
    TreasuryCannotBeAdmin,
    /// The tenant identity is the zero identity.
    InvalidTenantId,
    /// The new treasury identity is the zero identity.
    InvalidTreasuryAddress,
    /// A zero amount was supplied to an operation that moves funds.
    InvalidAmount,
    /// The amount exceeds the tenant's maximum transaction amount.
    TransactionTooLarge,
    /// The amount is below the tenant's minimum transaction amount.
    TransactionTooSmall,
    /// The asset is not allowed by the tenant's mint policy.
    MintNotAllowed,
    /// The tenant is not active.
    TenantNotActive,
    /// The clamped fee would consume the whole transfer.
    FeeExceedsAmount,
}

/// A signer or binding check failed before any state was touched.
#[derive(Clone, Copy, Debug, PartialEq, Eq, Structural)]
pub enum AuthorizationError {
    /// A guardian co-signature is required but none is present.
    MissingGuardianSignature,
    /// The wallet record's stored owner differs from the signing owner.
    OwnerMismatch,
    /// The wallet record's stored guardian differs from the signing guardian.
    GuardianMismatch,
    /// The tenant record's stored admin differs from the signing admin.
    AdminMismatch,
    /// The wallet address re-derived from the owner does not match the
    /// provided wallet record's address.
    WalletAddressMismatch,
    /// The vault address re-derived from the wallet and mint does not match
    /// the provided vault record's address.
    VaultAddressMismatch,
    /// The tenant-policy address re-derived from the tenant identity does not
    /// match the provided policy record's address.
    TenantAddressMismatch,
    /// A referenced account's mint differs from the operation's mint.
    MintMismatch,
    /// A referenced token account is not the one bound to the vault or to the
    /// expected holder.
    TokenAccountMismatch,
    /// The address-derivation space is exhausted: no bump seed yields a valid
    /// derived address. Fatal; never retried.
    DerivationExhausted,
}

/// The targeted record is in a state that forbids the operation.
#[derive(Clone, Copy, Debug, PartialEq, Eq, Structural)]
pub enum StateError {
    /// The vault is paused or not in the `Active` status.
    VaultPaused,
    /// The vault's custodial balance is smaller than the requested amount.
    InsufficientFunds,
}

/// A checked arithmetic step failed; never a silent wrap.
#[derive(Clone, Copy, Debug, PartialEq, Eq, Structural)]
pub enum ArithmeticError {
    /// An overflow occurred while computing a fee.
    FeeCalculationOverflow,
    /// A cumulative deposit or withdrawal counter would overflow.
    CounterOverflow,
}

/// Every failure the vault core can surface, tagged by subsystem.
#[derive(Clone, Copy, Debug, PartialEq, Eq, Structural)]
pub enum VaultError {
    Policy(PolicyError),
    Authorization(AuthorizationError),
    State(StateError),
    Arithmetic(ArithmeticError),
}

} // verus!
