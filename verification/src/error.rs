//! The failure taxonomy. Every check is local and terminal: on the first
//! failure an operation aborts with no partial mutation.

use vstd::prelude::*;

verus! {

/// A named, terminal failure of an initialization or slot-validation call.
#[derive(Clone, Copy, Debug, PartialEq, Eq, Structural)]
pub enum FractionError {
    /// A record that must exist and be populated is empty or unpopulated.
    Uninitialized,
    /// The authority-lookup record for this slot already exists.
    AlreadyInitialized,
    /// The configuration record for this slot already exists.
    AlreadyValidated,
    /// A record is not owned by its expected owning subsystem.
    IncorrectOwner,
    /// The vault's authority does not match the manager record's address.
    VaultAuthorityMismatch,
    /// The vault is not in its active state.
    VaultNotActive,
    /// The vault declares no deposit slots.
    VaultIsEmpty,
    /// The payment asset's mint differs from the declared payment mint.
    PaymentMintMismatch,
    /// The payment asset is not owned by the manager record's address.
    PaymentOwnerMismatch,
    /// The payment asset has a delegate set.
    PaymentAccountHasDelegate,
    /// The payment asset has a close authority set.
    PaymentAccountHasCloseAuthority,
    /// The supplied asset-metadata program key differs from the registry's.
    FractionManagerTokenMetadataMismatch,
    /// Duplicate consistency check on the asset-metadata program key.
    FractionManagerTokenMetadataProgramMismatch,
    /// The manager's authority differs from the caller-supplied authority.
    FractionManagerAuthorityMismatch,
    /// The manager's vault reference differs from the supplied vault.
    FractionManagerVaultMismatch,
    /// The slot's parent-vault reference differs from the supplied vault.
    SafetyDepositBoxVaultMismatch,
    /// No verified creator matches the whitelist, and the registry is not
    /// public with all creators verified.
    InvalidWhitelistedCreator,
    /// The manager's registry reference differs from the supplied registry.
    FractionManagerStoreMismatch,
    /// The slot's declared asset-mint differs from the supplied mint.
    SafetyDepositBoxMintMismatch,
    /// The supplied mint is not owned by the recorded token program.
    TokenProgramMismatch,
    /// The caller-supplied metadata authority is not the asset's current
    /// update authority.
    UpdateAuthorityIncorrect,
    /// The slot's asset-mint differs from the asset metadata's mint.
    SafetyDepositBoxMetadataMismatch,
    /// The supplied edition address differs from its derivation.
    InvalidEditionAddress,
    /// An edition record was required but could not be read.
    DataTypeMismatch,
    /// The slot's token store does not hold exactly one unit.
    StoreIsEmpty,
    /// The token store balance or remaining print supply cannot cover the
    /// requested amount.
    NotEnoughTokensToSupplyVaultBuyer,
    /// The supplied authority-lookup address differs from its derivation.
    FractionOriginalAuthorityLookupKeyMismatch,
    /// The configuration's declared order index differs from the slot's.
    SafetyDepositConfigOrderMismatch,
    /// The first-generation printing mode is not permitted with this manager.
    PrintingV1NotAllowed,
    /// The participation mode is not implemented by this core.
    ParticipationNotSupported,
    /// Participation fields are set on a mode that does not support them.
    InvalidOperation,
    /// The manager is not in the state this operation requires.
    FractionManagerInvalidStatus,
    /// A counter or supply sum overflowed.
    NumericalOverflowError,
    /// A supplied address does not match its required derivation.
    DerivationMismatch,
}

} // verus!
