//! End-to-end tests of the fraction engine: initialization, slot validation
//! in every transfer mode, the error taxonomy, and the stated laws on
//! concrete values.

use fraction_manager::address::Address;
use fraction_manager::engine::{init_fraction_manager, FractionEngine, SlotInputs};
use fraction_manager::error::FractionError;
use fraction_manager::records::{
    AmountRange, ExternalPriceAccount, FractionManagerStatus, FractionSafetyDepositConfig,
    MasterEdition, Metadata, Mint, ParticipationConfig, RecordInfo, SafetyDepositBox, Store,
    TokenAccount, Vault, VaultState, WhitelistedCreator, WinningConfigType, Creator,
};
use fraction_manager::supply::{assert_supply_logic_check, total_amount_requested, SupplyLogicCheckArgs};
use fraction_manager::validate::make_fraction_safety_deposit_config;
use fraction_manager::records::FractionManager;
use solana_program::pubkey::Pubkey;

fn addr(n: u8) -> Address {
    Address { bytes: vec![n; 32] }
}

fn pda(seeds: &[&[u8]], owner: &Address) -> Address {
    let owner_arr: [u8; 32] = owner.bytes.clone().try_into().unwrap();
    let owner_key = Pubkey::new_from_array(owner_arr);
    let (k, _) = Pubkey::find_program_address(seeds, &owner_key);
    Address {
        bytes: k.to_bytes().to_vec(),
    }
}

fn program_id() -> Address {
    addr(1)
}

fn manager_address() -> Address {
    // The manager lives at the derivation of (prefix, vault) under the program.
    pda(&[b"metaplex", &addr(6).bytes], &program_id())
}

fn base_store(public: bool) -> Store {
    Store {
        public,
        token_program: addr(2),
        token_vault_program: addr(3),
        token_metadata_program: addr(4),
    }
}

fn setup_with(ttc: u8, public: bool, vault_state: VaultState) -> Result<FractionEngine, FractionError> {
    let payment = TokenAccount {
        mint: addr(7),
        owner: manager_address(),
        amount: 0,
        delegate: None,
        close_authority: None,
        is_initialized: true,
    };
    init_fraction_manager(
        program_id(),
        RecordInfo {
            address: addr(5),
            owner: program_id(),
            is_empty: false,
        },
        base_store(public),
        RecordInfo {
            address: addr(6),
            owner: addr(3),
            is_empty: false,
        },
        Vault {
            authority: manager_address(),
            state: vault_state,
            token_type_count: ttc,
        },
        ExternalPriceAccount { token_mint: addr(7) },
        RecordInfo {
            address: addr(8),
            owner: addr(2),
            is_empty: false,
        },
        payment,
        addr(7),
        addr(9),
    )
}

fn setup(ttc: u8) -> FractionEngine {
    setup_with(ttc, true, VaultState::Active).unwrap()
}

/// Inputs for the slot with the given order index, consistent with the
/// engine that `setup` builds.
fn slot_inputs(
    order: u8,
    mode: WinningConfigType,
    ranges: Vec<AmountRange>,
    store_amount: u64,
    master_edition: Option<MasterEdition>,
) -> SlotInputs {
    let slot_address = addr(20 + order);
    let mint_address = addr(30 + order);
    let metadata_address = addr(40 + order);
    let edition_address = pda(
        &[b"metadata", &addr(4).bytes, &mint_address.bytes, b"edition"],
        &addr(4),
    );
    let config_address = pda(
        &[
            b"metaplex",
            &program_id().bytes,
            &manager_address().bytes,
            &slot_address.bytes,
        ],
        &program_id(),
    );
    let lookup_address = pda(
        &[b"metaplex", &addr(6).bytes, &metadata_address.bytes],
        &program_id(),
    );
    SlotInputs {
        safety_deposit_config_address: config_address,
        original_authority_lookup_address: lookup_address,
        metadata_info: RecordInfo {
            address: metadata_address,
            owner: addr(4),
            is_empty: false,
        },
        metadata: Metadata {
            update_authority: addr(10),
            mint: mint_address.dup(),
            creators: None,
        },
        whitelisted_creator_info: RecordInfo {
            address: addr(11),
            owner: program_id(),
            is_empty: true,
        },
        whitelisted_creator: None,
        safety_deposit_info: RecordInfo {
            address: slot_address,
            owner: addr(3),
            is_empty: false,
        },
        safety_deposit: SafetyDepositBox {
            vault: addr(6),
            token_mint: mint_address.dup(),
            order,
        },
        safety_deposit_token_store_info: RecordInfo {
            address: addr(50 + order),
            owner: addr(2),
            is_empty: false,
        },
        safety_deposit_token_store: TokenAccount {
            mint: mint_address.dup(),
            owner: addr(12),
            amount: store_amount,
            delegate: None,
            close_authority: None,
            is_initialized: true,
        },
        mint_info: RecordInfo {
            address: mint_address,
            owner: addr(2),
            is_empty: false,
        },
        mint: Mint {
            is_initialized: true,
        },
        edition_info: RecordInfo {
            address: edition_address,
            owner: addr(4),
            is_empty: false,
        },
        master_edition,
        authority_key: addr(9),
        metadata_authority_key: addr(10),
        token_metadata_program_key: addr(4),
        safety_deposit_config: FractionSafetyDepositConfig {
            order: order as u64,
            winning_config_type: mode,
            amount_ranges: ranges,
            participation_config: None,
            participation_state: None,
        },
    }
}

fn token_only(order: u8, total: u64, store_amount: u64) -> SlotInputs {
    slot_inputs(
        order,
        WinningConfigType::TokenOnlyTransfer,
        vec![AmountRange(total, 1)],
        store_amount,
        None,
    )
}

#[test]
fn init_succeeds_and_starts_initialized() {
    let engine = setup(3);
    assert_eq!(engine.manager.status, FractionManagerStatus::Initialized);
    assert_eq!(engine.manager.safety_config_items_validated, 0);
    assert_eq!(engine.configs.len(), 0);
    assert_eq!(engine.manager.vault.bytes, addr(6).bytes);
    assert_eq!(engine.manager_address.bytes, manager_address().bytes);
}

#[test]
fn init_rejects_inactive_vault() {
    let r = setup_with(3, true, VaultState::Inactive);
    assert_eq!(r.err().unwrap(), FractionError::VaultNotActive);
}

#[test]
fn init_rejects_empty_vault() {
    let r = setup_with(0, true, VaultState::Active);
    assert_eq!(r.err().unwrap(), FractionError::VaultIsEmpty);
}

#[test]
fn init_rejects_payment_delegate() {
    let payment = TokenAccount {
        mint: addr(7),
        owner: manager_address(),
        amount: 0,
        delegate: Some(addr(13)),
        close_authority: None,
        is_initialized: true,
    };
    let r = init_fraction_manager(
        program_id(),
        RecordInfo { address: addr(5), owner: program_id(), is_empty: false },
        base_store(true),
        RecordInfo { address: addr(6), owner: addr(3), is_empty: false },
        Vault { authority: manager_address(), state: VaultState::Active, token_type_count: 2 },
        ExternalPriceAccount { token_mint: addr(7) },
        RecordInfo { address: addr(8), owner: addr(2), is_empty: false },
        payment,
        addr(7),
        addr(9),
    );
    assert_eq!(r.err().unwrap(), FractionError::PaymentAccountHasDelegate);
}

#[test]
fn init_rejects_payment_mint_mismatch() {
    let payment = TokenAccount {
        mint: addr(14),
        owner: manager_address(),
        amount: 0,
        delegate: None,
        close_authority: None,
        is_initialized: true,
    };
    let r = init_fraction_manager(
        program_id(),
        RecordInfo { address: addr(5), owner: program_id(), is_empty: false },
        base_store(true),
        RecordInfo { address: addr(6), owner: addr(3), is_empty: false },
        Vault { authority: manager_address(), state: VaultState::Active, token_type_count: 2 },
        ExternalPriceAccount { token_mint: addr(7) },
        RecordInfo { address: addr(8), owner: addr(2), is_empty: false },
        payment,
        addr(7),
        addr(9),
    );
    assert_eq!(r.err().unwrap(), FractionError::PaymentMintMismatch);
}

#[test]
fn end_to_end_three_slots_any_order() {
    let mut engine = setup(3);
    assert!(engine.validate_slot(token_only(1, 10, 50)).is_ok());
    assert_eq!(engine.manager.safety_config_items_validated, 1);
    assert_eq!(engine.manager.status, FractionManagerStatus::Initialized);
    assert!(engine.validate_slot(token_only(0, 10, 50)).is_ok());
    assert_eq!(engine.manager.safety_config_items_validated, 2);
    assert_eq!(engine.manager.status, FractionManagerStatus::Initialized);
    assert!(engine.validate_slot(token_only(2, 10, 50)).is_ok());
    assert_eq!(engine.manager.safety_config_items_validated, 3);
    assert_eq!(engine.manager.status, FractionManagerStatus::Validated);
    assert_eq!(engine.configs.len(), 3);
    // A fourth attempt against any already-validated slot fails.
    let r = engine.validate_slot(token_only(0, 10, 50));
    assert_eq!(r.err().unwrap(), FractionError::AlreadyValidated);
    assert_eq!(engine.manager.safety_config_items_validated, 3);
    assert_eq!(engine.manager.status, FractionManagerStatus::Validated);
}

#[test]
fn same_slot_twice_fails_and_counter_unchanged() {
    let mut engine = setup(3);
    assert!(engine.validate_slot(token_only(0, 10, 50)).is_ok());
    let r = engine.validate_slot(token_only(0, 10, 50));
    assert_eq!(r.err().unwrap(), FractionError::AlreadyValidated);
    assert_eq!(engine.manager.safety_config_items_validated, 1);
    assert_eq!(engine.configs.len(), 1);
}

#[test]
fn order_mismatch_rejected_without_mutation() {
    let mut engine = setup(3);
    let mut inp = token_only(0, 10, 50);
    inp.safety_deposit_config.order = 5;
    let r = engine.validate_slot(inp);
    assert_eq!(r.err().unwrap(), FractionError::SafetyDepositConfigOrderMismatch);
    assert_eq!(engine.manager.safety_config_items_validated, 0);
    assert_eq!(engine.configs.len(), 0);
}

#[test]
fn full_rights_requires_total_of_one() {
    let mut engine = setup(2);
    let inp = slot_inputs(
        0,
        WinningConfigType::FractionFullRightsTransfer,
        vec![AmountRange(2, 1)],
        1,
        None,
    );
    let r = engine.validate_slot(inp);
    assert_eq!(r.err().unwrap(), FractionError::NotEnoughTokensToSupplyVaultBuyer);
    assert_eq!(engine.lookups.len(), 0);
    assert_eq!(engine.transfers.len(), 0);
}

#[test]
fn full_rights_success_records_original_authority() {
    let mut engine = setup(2);
    let inp = slot_inputs(
        0,
        WinningConfigType::FractionFullRightsTransfer,
        vec![AmountRange(1, 1)],
        1,
        None,
    );
    assert!(engine.validate_slot(inp).is_ok());
    assert_eq!(engine.lookups.len(), 1);
    assert_eq!(engine.lookups[0].record.original_authority.bytes, addr(10).bytes);
    let expected_lookup = pda(
        &[b"metaplex", &addr(6).bytes, &addr(40).bytes],
        &program_id(),
    );
    assert_eq!(engine.lookups[0].address.bytes, expected_lookup.bytes);
    assert_eq!(engine.transfers.len(), 1);
    assert_eq!(engine.transfers[0].from.bytes, addr(10).bytes);
    assert_eq!(engine.transfers[0].to.bytes, manager_address().bytes);
    assert_eq!(engine.manager.safety_config_items_validated, 1);
}

#[test]
fn full_rights_store_must_hold_one_unit() {
    let mut engine = setup(2);
    let inp = slot_inputs(
        0,
        WinningConfigType::FractionFullRightsTransfer,
        vec![AmountRange(1, 1)],
        0,
        None,
    );
    let r = engine.validate_slot(inp);
    assert_eq!(r.err().unwrap(), FractionError::StoreIsEmpty);
}

#[test]
fn full_rights_wrong_metadata_authority_rejected() {
    let mut engine = setup(2);
    let mut inp = slot_inputs(
        0,
        WinningConfigType::FractionFullRightsTransfer,
        vec![AmountRange(1, 1)],
        1,
        None,
    );
    inp.metadata_authority_key = addr(99);
    let r = engine.validate_slot(inp);
    assert_eq!(r.err().unwrap(), FractionError::UpdateAuthorityIncorrect);
    assert_eq!(engine.lookups.len(), 0);
}

#[test]
fn printing_v2_bound_is_exact() {
    // Maximum supply 10, current supply 4: exactly 6 succeeds.
    let mut engine = setup(2);
    let inp = slot_inputs(
        0,
        WinningConfigType::PrintingV2,
        vec![AmountRange(6, 1)],
        1,
        Some(MasterEdition { supply: 4, max_supply: Some(10) }),
    );
    assert!(engine.validate_slot(inp).is_ok());
    // A request for one more than the remaining supply fails.
    let inp2 = slot_inputs(
        1,
        WinningConfigType::PrintingV2,
        vec![AmountRange(7, 1)],
        1,
        Some(MasterEdition { supply: 4, max_supply: Some(10) }),
    );
    let r = engine.validate_slot(inp2);
    assert_eq!(r.err().unwrap(), FractionError::NotEnoughTokensToSupplyVaultBuyer);
}

#[test]
fn printing_v2_supply_above_max_overflows() {
    let mut engine = setup(2);
    let inp = slot_inputs(
        0,
        WinningConfigType::PrintingV2,
        vec![AmountRange(1, 1)],
        1,
        Some(MasterEdition { supply: 11, max_supply: Some(10) }),
    );
    let r = engine.validate_slot(inp);
    assert_eq!(r.err().unwrap(), FractionError::NumericalOverflowError);
}

#[test]
fn printing_v2_without_edition_record_rejected() {
    let mut engine = setup(2);
    let inp = slot_inputs(0, WinningConfigType::PrintingV2, vec![AmountRange(1, 1)], 1, None);
    let r = engine.validate_slot(inp);
    assert_eq!(r.err().unwrap(), FractionError::DataTypeMismatch);
}

#[test]
fn printing_v2_wrong_edition_address_rejected() {
    let mut engine = setup(2);
    let mut inp = slot_inputs(
        0,
        WinningConfigType::PrintingV2,
        vec![AmountRange(1, 1)],
        1,
        Some(MasterEdition { supply: 0, max_supply: Some(10) }),
    );
    inp.edition_info.address = addr(77);
    let r = engine.validate_slot(inp);
    assert_eq!(r.err().unwrap(), FractionError::InvalidEditionAddress);
}

#[test]
fn printing_v1_rejected() {
    let mut engine = setup(2);
    let inp = slot_inputs(0, WinningConfigType::PrintingV1, vec![AmountRange(1, 1)], 1, None);
    let r = engine.validate_slot(inp);
    assert_eq!(r.err().unwrap(), FractionError::PrintingV1NotAllowed);
}

#[test]
fn participation_mode_rejected() {
    let mut engine = setup(2);
    let inp = slot_inputs(0, WinningConfigType::Participation, vec![AmountRange(1, 1)], 1, None);
    let r = engine.validate_slot(inp);
    assert_eq!(r.err().unwrap(), FractionError::ParticipationNotSupported);
}

#[test]
fn participation_fields_on_other_mode_rejected() {
    let mut engine = setup(2);
    let mut inp = token_only(0, 10, 50);
    inp.safety_deposit_config.participation_config =
        Some(ParticipationConfig { fixed_price: None });
    let r = engine.validate_slot(inp);
    assert_eq!(r.err().unwrap(), FractionError::InvalidOperation);
    assert_eq!(engine.configs.len(), 0);
}

#[test]
fn insufficient_balance_fails_atomically() {
    let mut engine = setup(2);
    // Common checks pass; the supply logic fails on the balance.
    let r = engine.validate_slot(token_only(0, 10, 5));
    assert_eq!(r.err().unwrap(), FractionError::NotEnoughTokensToSupplyVaultBuyer);
    assert_eq!(engine.manager.safety_config_items_validated, 0);
    assert_eq!(engine.manager.status, FractionManagerStatus::Initialized);
    assert_eq!(engine.configs.len(), 0);
    assert_eq!(engine.lookups.len(), 0);
    assert_eq!(engine.transfers.len(), 0);
}

#[test]
fn validated_manager_accepts_no_further_slot() {
    let mut engine = setup(1);
    assert!(engine.validate_slot(token_only(0, 10, 50)).is_ok());
    assert_eq!(engine.manager.status, FractionManagerStatus::Validated);
    // A fresh slot against a completed manager is rejected.
    let r = engine.validate_slot(token_only(1, 10, 50));
    assert_eq!(r.err().unwrap(), FractionError::FractionManagerInvalidStatus);
    assert_eq!(engine.manager.safety_config_items_validated, 1);
}

#[test]
fn wrong_config_address_is_derivation_mismatch() {
    let mut engine = setup(2);
    let mut inp = token_only(0, 10, 50);
    inp.safety_deposit_config_address = addr(88);
    let r = engine.validate_slot(inp);
    assert_eq!(r.err().unwrap(), FractionError::DerivationMismatch);
    assert_eq!(engine.configs.len(), 0);
}

#[test]
fn config_record_lands_at_derived_address() {
    let mut engine = setup(2);
    assert!(engine.validate_slot(token_only(0, 10, 50)).is_ok());
    let expected = pda(
        &[
            b"metaplex",
            &program_id().bytes,
            &manager_address().bytes,
            &addr(20).bytes,
        ],
        &program_id(),
    );
    assert_eq!(engine.configs[0].address.bytes, expected.bytes);
    assert_eq!(engine.configs[0].record.fraction_manager.bytes, manager_address().bytes);
    assert_eq!(engine.configs[0].record.config.order, 0);
}

#[test]
fn wrong_authority_rejected() {
    let mut engine = setup(2);
    let mut inp = token_only(0, 10, 50);
    inp.authority_key = addr(66);
    let r = engine.validate_slot(inp);
    assert_eq!(r.err().unwrap(), FractionError::FractionManagerAuthorityMismatch);
}

#[test]
fn mint_mismatch_rejected() {
    let mut engine = setup(2);
    let mut inp = token_only(0, 10, 50);
    inp.mint_info.address = addr(55);
    let r = engine.validate_slot(inp);
    assert_eq!(r.err().unwrap(), FractionError::SafetyDepositBoxMintMismatch);
}

#[test]
fn uninitialized_mint_rejected() {
    let mut engine = setup(2);
    let mut inp = token_only(0, 10, 50);
    inp.mint.is_initialized = false;
    let r = engine.validate_slot(inp);
    assert_eq!(r.err().unwrap(), FractionError::Uninitialized);
}

#[test]
fn wrong_record_owner_rejected() {
    let mut engine = setup(2);
    let mut inp = token_only(0, 10, 50);
    inp.safety_deposit_info.owner = addr(44);
    let r = engine.validate_slot(inp);
    assert_eq!(r.err().unwrap(), FractionError::IncorrectOwner);
}

#[test]
fn whitelist_match_accepted_and_mismatch_rejected() {
    // A non-public registry needs a verified creator matching the whitelist.
    let mut engine = setup_with(2, false, VaultState::Active).unwrap();
    let mut inp = token_only(0, 10, 50);
    inp.metadata.creators = Some(vec![Creator { address: addr(60), verified: true, share: 100 }]);
    inp.whitelisted_creator = Some(WhitelistedCreator { address: addr(60), activated: true });
    inp.whitelisted_creator_info.is_empty = false;
    assert!(engine.validate_slot(inp).is_ok());

    let mut engine2 = setup_with(2, false, VaultState::Active).unwrap();
    let mut inp2 = token_only(1, 10, 50);
    inp2.metadata.creators = Some(vec![Creator { address: addr(60), verified: true, share: 100 }]);
    inp2.whitelisted_creator = Some(WhitelistedCreator { address: addr(61), activated: true });
    inp2.whitelisted_creator_info.is_empty = false;
    let r = engine2.validate_slot(inp2);
    assert_eq!(r.err().unwrap(), FractionError::InvalidWhitelistedCreator);
}

#[test]
fn public_registry_requires_all_creators_verified() {
    let mut engine = setup(2);
    let mut inp = token_only(0, 10, 50);
    inp.metadata.creators = Some(vec![
        Creator { address: addr(60), verified: true, share: 50 },
        Creator { address: addr(61), verified: false, share: 50 },
    ]);
    let r = engine.validate_slot(inp);
    assert_eq!(r.err().unwrap(), FractionError::InvalidWhitelistedCreator);
}

#[test]
fn total_amount_formula() {
    let r = total_amount_requested(&vec![AmountRange(2, 3), AmountRange(4, 5)]);
    assert_eq!(r.unwrap(), 26);
    let empty = total_amount_requested(&vec![]);
    assert_eq!(empty.unwrap(), 0);
}

#[test]
fn total_amount_overflow_is_fatal() {
    let r = total_amount_requested(&vec![AmountRange(u64::MAX, 2)]);
    assert_eq!(r.err().unwrap(), FractionError::NumericalOverflowError);
    let r2 = total_amount_requested(&vec![
        AmountRange(u64::MAX, 1),
        AmountRange(1, 1),
    ]);
    assert_eq!(r2.err().unwrap(), FractionError::NumericalOverflowError);
    let mut engine = setup(2);
    let mut inp = token_only(0, 1, 1);
    inp.safety_deposit_config.amount_ranges = vec![AmountRange(u64::MAX, 2)];
    let r3 = engine.validate_slot(inp);
    assert_eq!(r3.err().unwrap(), FractionError::NumericalOverflowError);
}

#[test]
fn token_only_balance_boundary() {
    // A balance exactly equal to the requested total passes.
    let mut engine = setup(2);
    assert!(engine.validate_slot(token_only(0, 50, 50)).is_ok());
    let mut engine2 = setup(2);
    let r = engine2.validate_slot(token_only(0, 51, 50));
    assert_eq!(r.err().unwrap(), FractionError::NotEnoughTokensToSupplyVaultBuyer);
}

#[test]
fn supply_logic_check_direct_token_only() {
    let engine = setup(2);
    let inp = token_only(0, 10, 50);
    let manager: &FractionManager = &engine.manager;
    let manager_info = RecordInfo {
        address: engine.manager_address.dup(),
        owner: program_id(),
        is_empty: false,
    };
    let lookup_info = RecordInfo {
        address: inp.original_authority_lookup_address.dup(),
        owner: program_id(),
        is_empty: true,
    };
    let mode = WinningConfigType::TokenOnlyTransfer;
    let args = SupplyLogicCheckArgs {
        program_id: &engine.program_id,
        fraction_manager_info: &manager_info,
        metadata_info: &inp.metadata_info,
        edition_info: &inp.edition_info,
        metadata_authority_key: &inp.metadata_authority_key,
        original_authority_lookup_info: &lookup_info,
        safety_deposit_token_store: &inp.safety_deposit_token_store,
        fraction_manager: manager,
        winning_config_type: &mode,
        metadata: &inp.metadata,
        safety_deposit: &inp.safety_deposit,
        store: &engine.store,
        master_edition: &None,
        total_amount_requested: 10,
    };
    let r = assert_supply_logic_check(args);
    assert!(matches!(r, Ok(None)));

    let args_short = SupplyLogicCheckArgs {
        program_id: &engine.program_id,
        fraction_manager_info: &manager_info,
        metadata_info: &inp.metadata_info,
        edition_info: &inp.edition_info,
        metadata_authority_key: &inp.metadata_authority_key,
        original_authority_lookup_info: &lookup_info,
        safety_deposit_token_store: &inp.safety_deposit_token_store,
        fraction_manager: manager,
        winning_config_type: &mode,
        metadata: &inp.metadata,
        safety_deposit: &inp.safety_deposit,
        store: &engine.store,
        master_edition: &None,
        total_amount_requested: 51,
    };
    let r2 = assert_supply_logic_check(args_short);
    assert_eq!(r2.err().unwrap(), FractionError::NotEnoughTokensToSupplyVaultBuyer);
}

#[test]
fn make_config_direct_checks_derivation() {
    let engine = setup(2);
    let slot_address = addr(20);
    let manager_info = RecordInfo {
        address: engine.manager_address.dup(),
        owner: program_id(),
        is_empty: false,
    };
    let slot_info = RecordInfo {
        address: slot_address.dup(),
        owner: addr(3),
        is_empty: false,
    };
    let good = pda(
        &[
            b"metaplex",
            &program_id().bytes,
            &engine.manager_address.bytes,
            &slot_address.bytes,
        ],
        &program_id(),
    );
    let config = FractionSafetyDepositConfig {
        order: 0,
        winning_config_type: WinningConfigType::TokenOnlyTransfer,
        amount_ranges: vec![AmountRange(1, 1)],
        participation_config: None,
        participation_state: None,
    };
    let good_info = RecordInfo { address: good.dup(), owner: program_id(), is_empty: true };
    let r = make_fraction_safety_deposit_config(
        &engine.program_id,
        &manager_info,
        &slot_info,
        &good_info,
        config,
    );
    let made = r.unwrap();
    assert_eq!(made.0.bytes, good.bytes);
    assert_eq!(made.2.fraction_manager.bytes, engine.manager_address.bytes);

    let bad_info = RecordInfo { address: addr(90), owner: program_id(), is_empty: true };
    let config2 = FractionSafetyDepositConfig {
        order: 0,
        winning_config_type: WinningConfigType::TokenOnlyTransfer,
        amount_ranges: vec![AmountRange(1, 1)],
        participation_config: None,
        participation_state: None,
    };
    let r2 = make_fraction_safety_deposit_config(
        &engine.program_id,
        &manager_info,
        &slot_info,
        &bad_info,
        config2,
    );
    assert_eq!(r2.err().unwrap(), FractionError::DerivationMismatch);
}
