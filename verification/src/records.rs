//! The records this core reads and writes, modeled as plain values at the
//! account boundary, with the ghost views its contracts are stated over.

use vstd::prelude::*;

verus! {

use crate::address::Address;

/// The identity tag stored in the first byte of a persisted record.
#[derive(Clone, Copy, Debug, PartialEq, Eq, Structural)]
pub enum Key {
    Uninitialized,
    FractionManagerV1,
    FractionSafetyDepositConfigV1,
    OriginalAuthorityLookupV1,
}

/// The manager's lifecycle status.
#[derive(Clone, Copy, Debug, PartialEq, Eq, Structural)]
pub enum FractionManagerStatus {
    Uninitialized,
    Initialized,
    Validated,
}

/// The vault subsystem's lifecycle state for a vault.
#[derive(Clone, Copy, Debug, PartialEq, Eq, Structural)]
pub enum VaultState {
    Inactive,
    Active,
    Combined,
    Deactivated,
}

/// The transfer mode a slot's configuration declares: the policy governing
/// how much of the slot's asset may be claimed and how authority moves.
#[derive(Clone, Copy, Debug, PartialEq, Eq, Structural)]
pub enum WinningConfigType {
    TokenOnlyTransfer,
    FractionFullRightsTransfer,
    PrintingV1,
    PrintingV2,
    Participation,
}

/// A quantity range: `.0` items of length `.1` each.
#[derive(Clone, Copy, Debug, PartialEq, Eq, Structural)]
pub struct AmountRange(pub u64, pub u64);

/// Participation settings; read only to reject modes that cannot carry them.
#[derive(Clone, Copy, Debug, PartialEq, Eq, Structural)]
pub struct ParticipationConfig {
    pub fixed_price: Option<u64>,
}

/// Participation bookkeeping; read only to reject modes that cannot carry it.
#[derive(Clone, Copy, Debug, PartialEq, Eq, Structural)]
pub struct ParticipationState {
    pub collected_to_accept_payment: Option<u64>,
}

/// The account-level metadata of a supplied record: where it lives, which
/// program owns it, and whether its data is still empty.
pub struct RecordInfo {
    pub address: Address,
    pub owner: Address,
    pub is_empty: bool,
}

/// Ghost view of a supplied record's account-level metadata.
#[verifier::ext_equal]
pub struct RecordInfoV {
    pub address: Seq<u8>,
    pub owner: Seq<u8>,
    pub is_empty: bool,
}

impl View for RecordInfo {
    type V = RecordInfoV;

    open spec fn view(&self) -> RecordInfoV {
        RecordInfoV { address: self.address@, owner: self.owner@, is_empty: self.is_empty }
    }
}

/// One creator listed on an asset's metadata.
pub struct Creator {
    pub address: Address,
    pub verified: bool,
    pub share: u8,
}

/// An asset's metadata record, read at its interface boundary.
pub struct Metadata {
    pub update_authority: Address,
    pub mint: Address,
    pub creators: Option<Vec<Creator>>,
}

/// A vault record, read-only here: owned by the vault subsystem.
pub struct Vault {
    pub authority: Address,
    pub state: VaultState,
    pub token_type_count: u8,
}

/// One deposited asset's bookkeeping record inside a vault, read-only here.
pub struct SafetyDepositBox {
    pub vault: Address,
    pub token_mint: Address,
    pub order: u8,
}

/// A token account, read at its interface boundary.
pub struct TokenAccount {
    pub mint: Address,
    pub owner: Address,
    pub amount: u64,
    pub delegate: Option<Address>,
    pub close_authority: Option<Address>,
    pub is_initialized: bool,
}

/// A token mint, read only to confirm it is populated.
pub struct Mint {
    pub is_initialized: bool,
}

/// The registry record: the owning-subsystem identities used throughout the
/// common checks, and whether the registry accepts any verified creator set.
pub struct Store {
    pub public: bool,
    pub token_program: Address,
    pub token_vault_program: Address,
    pub token_metadata_program: Address,
}

/// One whitelisted creator entry of the registry.
pub struct WhitelistedCreator {
    pub address: Address,
    pub activated: bool,
}

/// A master-edition record: print supply bookkeeping for an asset.
#[derive(Clone, Copy, Debug, PartialEq, Eq, Structural)]
pub struct MasterEdition {
    pub supply: u64,
    pub max_supply: Option<u64>,
}

/// The payment-asset price descriptor, read-only here.
pub struct ExternalPriceAccount {
    pub token_mint: Address,
}

/// The fractionalization controller bound to one vault.
pub struct FractionManager {
    pub key: Key,
    pub store: Address,
    pub vault: Address,
    pub authority: Address,
    pub accept_payment: Address,
    pub accept_payment_mint: Address,
    pub status: FractionManagerStatus,
    pub safety_config_items_validated: u64,
}

/// Ghost view of a fraction manager.
#[verifier::ext_equal]
pub struct ManagerView {
    pub key: Key,
    pub store: Seq<u8>,
    pub vault: Seq<u8>,
    pub authority: Seq<u8>,
    pub accept_payment: Seq<u8>,
    pub accept_payment_mint: Seq<u8>,
    pub status: FractionManagerStatus,
    pub safety_config_items_validated: u64,
}

impl View for FractionManager {
    type V = ManagerView;

    open spec fn view(&self) -> ManagerView {
        ManagerView {
            key: self.key,
            store: self.store@,
            vault: self.vault@,
            authority: self.authority@,
            accept_payment: self.accept_payment@,
            accept_payment_mint: self.accept_payment_mint@,
            status: self.status,
            safety_config_items_validated: self.safety_config_items_validated,
        }
    }
}

/// A slot configuration as declared by the caller: the order index, the
/// transfer mode, the quantity ranges, and optional participation fields.
pub struct FractionSafetyDepositConfig {
    pub order: u64,
    pub winning_config_type: WinningConfigType,
    pub amount_ranges: Vec<AmountRange>,
    pub participation_config: Option<ParticipationConfig>,
    pub participation_state: Option<ParticipationState>,
}

/// Ghost view of a declared slot configuration.
#[verifier::ext_equal]
pub struct ConfigView {
    pub order: u64,
    pub winning_config_type: WinningConfigType,
    pub amount_ranges: Seq<AmountRange>,
    pub participation_config: Option<ParticipationConfig>,
    pub participation_state: Option<ParticipationState>,
}

impl View for FractionSafetyDepositConfig {
    type V = ConfigView;

    open spec fn view(&self) -> ConfigView {
        ConfigView {
            order: self.order,
            winning_config_type: self.winning_config_type,
            amount_ranges: self.amount_ranges@,
            participation_config: self.participation_config,
            participation_state: self.participation_state,
        }
    }
}

/// A persisted, immutable configuration record for one validated slot.
pub struct SafetyDepositConfigRecord {
    pub key: Key,
    pub fraction_manager: Address,
    pub config: FractionSafetyDepositConfig,
}

/// Ghost view of a persisted configuration record.
#[verifier::ext_equal]
pub struct ConfigRecordView {
    pub key: Key,
    pub fraction_manager: Seq<u8>,
    pub config: ConfigView,
}

impl View for SafetyDepositConfigRecord {
    type V = ConfigRecordView;

    open spec fn view(&self) -> ConfigRecordView {
        ConfigRecordView {
            key: self.key,
            fraction_manager: self.fraction_manager@,
            config: self.config@,
        }
    }
}

/// The restoration record preserving an asset's pre-transfer authority.
pub struct OriginalAuthorityLookup {
    pub key: Key,
    pub original_authority: Address,
}

/// Ghost view of an authority-lookup record.
#[verifier::ext_equal]
pub struct LookupView {
    pub key: Key,
    pub original_authority: Seq<u8>,
}

impl View for OriginalAuthorityLookup {
    type V = LookupView;

    open spec fn view(&self) -> LookupView {
        LookupView { key: self.key, original_authority: self.original_authority@ }
    }
}

/// A requested hand-off of an asset's update authority, carrying the
/// derivation proof the transfer must be signed with.
pub struct AuthorityTransfer {
    pub metadata: Address,
    pub from: Address,
    pub to: Address,
    pub proof_bump: u8,
}

/// Ghost view of an authority hand-off request.
#[verifier::ext_equal]
pub struct TransferView {
    pub metadata: Seq<u8>,
    pub from: Seq<u8>,
    pub to: Seq<u8>,
    pub proof_bump: u8,
}

impl View for AuthorityTransfer {
    type V = TransferView;

    open spec fn view(&self) -> TransferView {
        TransferView {
            metadata: self.metadata@,
            from: self.from@,
            to: self.to@,
            proof_bump: self.proof_bump,
        }
    }
}

/// The side effects of validating a full-rights slot: the authority-lookup
/// record to create and the update-authority transfer to perform.
pub struct FullRightsHandOff {
    pub lookup_address: Address,
    pub lookup_bump: u8,
    pub lookup: OriginalAuthorityLookup,
    pub transfer: AuthorityTransfer,
}

/// Ghost view of the full-rights side effects.
#[verifier::ext_equal]
pub struct HandOffView {
    pub lookup_address: Seq<u8>,
    pub lookup_bump: u8,
    pub lookup: LookupView,
    pub transfer: TransferView,
}

impl View for FullRightsHandOff {
    type V = HandOffView;

    open spec fn view(&self) -> HandOffView {
        HandOffView {
            lookup_address: self.lookup_address@,
            lookup_bump: self.lookup_bump,
            lookup: self.lookup@,
            transfer: self.transfer@,
        }
    }
}

/// Ghost view of an optional full-rights hand-off.
pub open spec fn opt_hand_off_view(o: Option<FullRightsHandOff>) -> Option<HandOffView> {
    match o {
        Some(h) => Some(h@),
        None => None,
    }
}

} // verus!
