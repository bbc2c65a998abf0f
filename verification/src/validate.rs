//! Slot validation as one pure transition: run the common checks, run the
//! supply logic, advance the manager, and produce the configuration record —
//! or fail with the first error and produce nothing.

use vstd::prelude::*;

verus! {

use crate::address::{assert_derivation, config_seeds, pda_of, spec_config_seeds, Address};
use crate::checks::{assert_common_checks, spec_common_checks, CommonCheckArgs, CommonCheckData};
use crate::error::FractionError;
use crate::records::{
    ConfigRecordView, ConfigView, FractionManager, FractionManagerStatus,
    FractionSafetyDepositConfig, FullRightsHandOff, HandOffView, Key, ManagerView, MasterEdition,
    Metadata, Mint, RecordInfo, RecordInfoV, SafetyDepositBox, SafetyDepositConfigRecord, Store,
    TokenAccount, Vault, WhitelistedCreator, WinningConfigType, opt_hand_off_view,
};
use crate::supply::{
    assert_supply_logic_check, spec_supply_logic, spec_total_amount, total_amount_requested,
    SupplyCheckData, SupplyLogicCheckArgs,
};

/// What persisting a slot configuration yields: the derived address with its
/// bump, and the record itself.
pub open spec fn spec_make_config(
    program_id: Seq<u8>,
    manager: Seq<u8>,
    slot: Seq<u8>,
    supplied: Seq<u8>,
    config: ConfigView,
) -> Result<(Seq<u8>, u8, ConfigRecordView), FractionError> {
    match pda_of(spec_config_seeds(program_id, manager, slot), program_id) {
        None => Err(FractionError::DerivationMismatch),
        Some(p) => {
            if p.0 != supplied {
                Err(FractionError::DerivationMismatch)
            } else {
                Ok(
                    (
                        p.0,
                        p.1,
                        ConfigRecordView {
                            key: Key::FractionSafetyDepositConfigV1,
                            fraction_manager: manager,
                            config,
                        },
                    ),
                )
            }
        },
    }
}

/// Build the configuration record for a validated slot at its derived
/// address. The supplied address must equal the derivation from the manager
/// and slot identities; any mismatch is fatal.
pub fn make_fraction_safety_deposit_config(
    program_id: &Address,
    fraction_manager_info: &RecordInfo,
    safety_deposit_info: &RecordInfo,
    safety_deposit_config_info: &RecordInfo,
    safety_deposit_config: FractionSafetyDepositConfig,
) -> (r: Result<(Address, u8, SafetyDepositConfigRecord), FractionError>)
    requires
        program_id.wf(),
    ensures
        (r matches Ok(t) ==> spec_make_config(
            program_id@,
            fraction_manager_info@.address,
            safety_deposit_info@.address,
            safety_deposit_config_info@.address,
            safety_deposit_config@,
        ) matches Ok(tv) && t.0@ == tv.0 && t.1 == tv.1 && t.2@ == tv.2 && t.0.wf()),
        (r matches Err(e) ==> spec_make_config(
            program_id@,
            fraction_manager_info@.address,
            safety_deposit_info@.address,
            safety_deposit_config_info@.address,
            safety_deposit_config@,
        ) matches Err(e2) && e == e2),
{
    let seeds = config_seeds(program_id, &fraction_manager_info.address, &safety_deposit_info.address);
    let bump = match assert_derivation(&seeds, program_id, &safety_deposit_config_info.address) {
        Ok(b) => b,
        Err(e) => {
            return Err(e);
        },
    };
    let record = SafetyDepositConfigRecord {
        key: Key::FractionSafetyDepositConfigV1,
        fraction_manager: fraction_manager_info.address.dup(),
        config: safety_deposit_config,
    };
    Ok((safety_deposit_config_info.address.dup(), bump, record))
}

/// Everything one slot validation reads, as ghost data.
pub struct ValidateData {
    pub program_id: Seq<u8>,
    pub safety_deposit_config_info: RecordInfoV,
    pub fraction_manager_info: RecordInfoV,
    pub metadata_info: RecordInfoV,
    pub original_authority_lookup_info: RecordInfoV,
    pub whitelisted_creator_info: RecordInfoV,
    pub fraction_manager_store_info: RecordInfoV,
    pub safety_deposit_info: RecordInfoV,
    pub safety_deposit_token_store_info: RecordInfoV,
    pub mint_info: RecordInfoV,
    pub edition_info: RecordInfoV,
    pub vault_info: RecordInfoV,
    pub authority_key: Seq<u8>,
    pub metadata_authority_key: Seq<u8>,
    pub token_metadata_program_key: Seq<u8>,
    pub fraction_manager: ManagerView,
    pub safety_deposit: SafetyDepositBox,
    pub metadata: Metadata,
    pub store: Store,
    pub vault: Vault,
    pub mint: Mint,
    pub safety_deposit_token_store: TokenAccount,
    pub master_edition: Option<MasterEdition>,
    pub whitelisted_creator: Option<WhitelistedCreator>,
    pub config: ConfigView,
}

/// The slice of the validation data the common checks read.
pub open spec fn common_data_of(d: ValidateData) -> CommonCheckData {
    CommonCheckData {
        program_id: d.program_id,
        fraction_manager_info: d.fraction_manager_info,
        metadata_info: d.metadata_info,
        original_authority_lookup_info: d.original_authority_lookup_info,
        whitelisted_creator_info: d.whitelisted_creator_info,
        safety_deposit_info: d.safety_deposit_info,
        safety_deposit_token_store_info: d.safety_deposit_token_store_info,
        edition_info: d.edition_info,
        vault_info: d.vault_info,
        mint_info: d.mint_info,
        token_metadata_program_key: d.token_metadata_program_key,
        fraction_manager_store_info: d.fraction_manager_store_info,
        authority_key: d.authority_key,
        store: d.store,
        fraction_manager: d.fraction_manager,
        metadata: d.metadata,
        safety_deposit: d.safety_deposit,
        vault: d.vault,
        mint: d.mint,
        whitelisted_creator: d.whitelisted_creator,
        winning_config_type: d.config.winning_config_type,
    }
}

/// The slice of the validation data the supply logic reads, with the
/// computed total.
pub open spec fn supply_data_of(d: ValidateData, total: u64) -> SupplyCheckData {
    SupplyCheckData {
        program_id: d.program_id,
        fraction_manager_info: d.fraction_manager_info,
        metadata_info: d.metadata_info,
        edition_info: d.edition_info,
        metadata_authority_key: d.metadata_authority_key,
        original_authority_lookup_info: d.original_authority_lookup_info,
        safety_deposit_token_store: d.safety_deposit_token_store,
        fraction_manager: d.fraction_manager,
        winning_config_type: d.config.winning_config_type,
        metadata: d.metadata,
        safety_deposit: d.safety_deposit,
        store: d.store,
        master_edition: d.master_edition,
        total_amount_requested: total,
    }
}

/// What a successful slot validation produces, as ghost data.
#[verifier::ext_equal]
pub struct OutcomeView {
    pub fraction_manager: ManagerView,
    pub config_address: Seq<u8>,
    pub config_bump: u8,
    pub config_record: ConfigRecordView,
    pub hand_off: Option<HandOffView>,
}

/// The full decision of one slot validation: either every check passes and
/// the outcome holds the advanced manager, the configuration record at its
/// derived address, and the full-rights hand-off if any — or the first
/// failure is named and nothing is produced.
pub open spec fn spec_validate(d: ValidateData) -> Result<OutcomeView, FractionError> {
    if !d.safety_deposit_config_info.is_empty {
        Err(FractionError::AlreadyValidated)
    } else if !(d.fraction_manager.status is Initialized) {
        Err(FractionError::FractionManagerInvalidStatus)
    } else {
        match spec_common_checks(common_data_of(d)) {
            Err(e) => Err(e),
            Ok(u) => {
                if spec_total_amount(d.config.amount_ranges) > u64::MAX {
                    Err(FractionError::NumericalOverflowError)
                } else {
                    let total = spec_total_amount(d.config.amount_ranges) as u64;
                    match spec_supply_logic(supply_data_of(d, total)) {
                        Err(e) => Err(e),
                        Ok(hand_off) => {
                            if d.config.order != d.safety_deposit.order as u64 {
                                Err(FractionError::SafetyDepositConfigOrderMismatch)
                            } else if d.config.winning_config_type is PrintingV1 {
                                Err(FractionError::PrintingV1NotAllowed)
                            } else if !(d.config.winning_config_type is Participation) && (
                            d.config.participation_config is Some
                                || d.config.participation_state is Some) {
                                Err(FractionError::InvalidOperation)
                            } else if d.fraction_manager.safety_config_items_validated
                                == u64::MAX {
                                Err(FractionError::NumericalOverflowError)
                            } else {
                                let new_count = (d.fraction_manager.safety_config_items_validated
                                    + 1) as u64;
                                let new_status = if new_count == d.vault.token_type_count as u64 {
                                    FractionManagerStatus::Validated
                                } else {
                                    d.fraction_manager.status
                                };
                                match spec_make_config(
                                    d.program_id,
                                    d.fraction_manager_info.address,
                                    d.safety_deposit_info.address,
                                    d.safety_deposit_config_info.address,
                                    d.config,
                                ) {
                                    Err(e) => Err(e),
                                    Ok(c) => Ok(
                                        OutcomeView {
                                            fraction_manager: ManagerView {
                                                key: d.fraction_manager.key,
                                                store: d.fraction_manager.store,
                                                vault: d.fraction_manager.vault,
                                                authority: d.fraction_manager.authority,
                                                accept_payment: d.fraction_manager.accept_payment,
                                                accept_payment_mint:
                                                    d.fraction_manager.accept_payment_mint,
                                                status: new_status,
                                                safety_config_items_validated: new_count,
                                            },
                                            config_address: c.0,
                                            config_bump: c.1,
                                            config_record: c.2,
                                            hand_off,
                                        },
                                    ),
                                }
                            }
                        },
                    }
                }
            },
        }
    }
}

/// The inputs of one slot validation, handed in by reference.
pub struct ValidateArgs<'a> {
    pub program_id: &'a Address,
    pub safety_deposit_config_info: &'a RecordInfo,
    pub fraction_manager_info: &'a RecordInfo,
    pub metadata_info: &'a RecordInfo,
    pub original_authority_lookup_info: &'a RecordInfo,
    pub whitelisted_creator_info: &'a RecordInfo,
    pub fraction_manager_store_info: &'a RecordInfo,
    pub safety_deposit_info: &'a RecordInfo,
    pub safety_deposit_token_store_info: &'a RecordInfo,
    pub mint_info: &'a RecordInfo,
    pub edition_info: &'a RecordInfo,
    pub vault_info: &'a RecordInfo,
    pub authority_key: &'a Address,
    pub metadata_authority_key: &'a Address,
    pub token_metadata_program_key: &'a Address,
    pub fraction_manager: &'a FractionManager,
    pub safety_deposit: &'a SafetyDepositBox,
    pub metadata: &'a Metadata,
    pub store: &'a Store,
    pub vault: &'a Vault,
    pub mint: &'a Mint,
    pub safety_deposit_token_store: &'a TokenAccount,
    pub master_edition: &'a Option<MasterEdition>,
    pub whitelisted_creator: &'a Option<WhitelistedCreator>,
}

impl<'a> ValidateArgs<'a> {
    /// The ghost data these inputs denote, with the declared configuration.
    pub open spec fn data(&self, config: ConfigView) -> ValidateData {
        ValidateData {
            program_id: self.program_id@,
            safety_deposit_config_info: self.safety_deposit_config_info@,
            fraction_manager_info: self.fraction_manager_info@,
            metadata_info: self.metadata_info@,
            original_authority_lookup_info: self.original_authority_lookup_info@,
            whitelisted_creator_info: self.whitelisted_creator_info@,
            fraction_manager_store_info: self.fraction_manager_store_info@,
            safety_deposit_info: self.safety_deposit_info@,
            safety_deposit_token_store_info: self.safety_deposit_token_store_info@,
            mint_info: self.mint_info@,
            edition_info: self.edition_info@,
            vault_info: self.vault_info@,
            authority_key: self.authority_key@,
            metadata_authority_key: self.metadata_authority_key@,
            token_metadata_program_key: self.token_metadata_program_key@,
            fraction_manager: self.fraction_manager@,
            safety_deposit: *self.safety_deposit,
            metadata: *self.metadata,
            store: *self.store,
            vault: *self.vault,
            mint: *self.mint,
            safety_deposit_token_store: *self.safety_deposit_token_store,
            master_edition: *self.master_edition,
            whitelisted_creator: *self.whitelisted_creator,
            config,
        }
    }
}

/// What a successful slot validation produces: the advanced manager, the
/// configuration record at its derived address, and the full-rights
/// hand-off if any.
pub struct ValidateOutcome {
    pub fraction_manager: FractionManager,
    pub config_address: Address,
    pub config_bump: u8,
    pub config_record: SafetyDepositConfigRecord,
    pub hand_off: Option<FullRightsHandOff>,
}

impl View for ValidateOutcome {
    type V = OutcomeView;

    open spec fn view(&self) -> OutcomeView {
        OutcomeView {
            fraction_manager: self.fraction_manager@,
            config_address: self.config_address@,
            config_bump: self.config_bump,
            config_record: self.config_record@,
            hand_off: opt_hand_off_view(self.hand_off),
        }
    }
}

/// Validate one deposit slot against its manager: run the common checks and
/// the supply logic, enforce the order index and mode rules, advance the
/// counter (overflow-checked), flip the status when the counter reaches the
/// vault's slot count, and build the configuration record at its derived
/// address. Pure: the produced outcome is the entire effect.
pub fn process_validate_fraction_safety_deposit_box(
    args: ValidateArgs,
    safety_deposit_config: FractionSafetyDepositConfig,
) -> (r: Result<ValidateOutcome, FractionError>)
    requires
        args.program_id.wf(),
        args.store.token_metadata_program.wf(),
    ensures
        (r matches Ok(o) ==> spec_validate(args.data(safety_deposit_config@)) matches Ok(ov) && o@
            == ov && o.config_address.wf()),
        (r matches Err(e) ==> spec_validate(args.data(safety_deposit_config@)) matches Err(e2)
            && e == e2),
{
    if !args.safety_deposit_config_info.is_empty {
        return Err(FractionError::AlreadyValidated);
    }
    if args.fraction_manager.status != FractionManagerStatus::Initialized {
        return Err(FractionError::FractionManagerInvalidStatus);
    }
    let common_args = CommonCheckArgs {
        program_id: args.program_id,
        fraction_manager_info: args.fraction_manager_info,
        metadata_info: args.metadata_info,
        original_authority_lookup_info: args.original_authority_lookup_info,
        whitelisted_creator_info: args.whitelisted_creator_info,
        safety_deposit_info: args.safety_deposit_info,
        safety_deposit_token_store_info: args.safety_deposit_token_store_info,
        edition_info: args.edition_info,
        vault_info: args.vault_info,
        mint_info: args.mint_info,
        token_metadata_program_key: args.token_metadata_program_key,
        fraction_manager_store_info: args.fraction_manager_store_info,
        authority_key: args.authority_key,
        store: args.store,
        fraction_manager: args.fraction_manager,
        metadata: args.metadata,
        safety_deposit: args.safety_deposit,
        vault: args.vault,
        mint: args.mint,
        whitelisted_creator: args.whitelisted_creator,
        winning_config_type: &safety_deposit_config.winning_config_type,
    };
    match assert_common_checks(common_args) {
        Ok(_) => {},
        Err(e) => {
            return Err(e);
        },
    }
    let total = match total_amount_requested(&safety_deposit_config.amount_ranges) {
        Ok(t) => t,
        Err(e) => {
            return Err(e);
        },
    };
    let supply_args = SupplyLogicCheckArgs {
        program_id: args.program_id,
        fraction_manager_info: args.fraction_manager_info,
        metadata_info: args.metadata_info,
        edition_info: args.edition_info,
        metadata_authority_key: args.metadata_authority_key,
        original_authority_lookup_info: args.original_authority_lookup_info,
        safety_deposit_token_store: args.safety_deposit_token_store,
        fraction_manager: args.fraction_manager,
        winning_config_type: &safety_deposit_config.winning_config_type,
        metadata: args.metadata,
        safety_deposit: args.safety_deposit,
        store: args.store,
        master_edition: args.master_edition,
        total_amount_requested: total,
    };
    let hand_off = match assert_supply_logic_check(supply_args) {
        Ok(h) => h,
        Err(e) => {
            return Err(e);
        },
    };
    if safety_deposit_config.order != args.safety_deposit.order as u64 {
        return Err(FractionError::SafetyDepositConfigOrderMismatch);
    }
    if safety_deposit_config.winning_config_type == WinningConfigType::PrintingV1 {
        return Err(FractionError::PrintingV1NotAllowed);
    }
    if safety_deposit_config.winning_config_type != WinningConfigType::Participation && (
    safety_deposit_config.participation_config.is_some()
        || safety_deposit_config.participation_state.is_some()) {
        return Err(FractionError::InvalidOperation);
    }
    let new_count = match args.fraction_manager.safety_config_items_validated.checked_add(1) {
        Some(c) => c,
        None => {
            return Err(FractionError::NumericalOverflowError);
        },
    };
    let new_status = if new_count == args.vault.token_type_count as u64 {
        FractionManagerStatus::Validated
    } else {
        args.fraction_manager.status
    };
    let made = match make_fraction_safety_deposit_config(
        args.program_id,
        args.fraction_manager_info,
        args.safety_deposit_info,
        args.safety_deposit_config_info,
        safety_deposit_config,
    ) {
        Ok(t) => t,
        Err(e) => {
            return Err(e);
        },
    };
    let new_manager = FractionManager {
        key: args.fraction_manager.key,
        store: args.fraction_manager.store.dup(),
        vault: args.fraction_manager.vault.dup(),
        authority: args.fraction_manager.authority.dup(),
        accept_payment: args.fraction_manager.accept_payment.dup(),
        accept_payment_mint: args.fraction_manager.accept_payment_mint.dup(),
        status: new_status,
        safety_config_items_validated: new_count,
    };
    Ok(
        ValidateOutcome {
            fraction_manager: new_manager,
            config_address: made.0,
            config_bump: made.1,
            config_record: made.2,
            hand_off,
        },
    )
}

} // verus!
