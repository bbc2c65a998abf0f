//! The fraction engine: the manager record, its read-only collaborators, and
//! the arena of records created at derived addresses. Each operation is one
//! atomic unit: on failure the state is untouched.

use vstd::prelude::*;

verus! {

use crate::address::{derive_address, authority_seeds, pda_of, spec_authority_seeds, Address};
use crate::error::FractionError;
use crate::records::{
    AuthorityTransfer, ConfigRecordView, ExternalPriceAccount, FractionManager,
    FractionManagerStatus, FractionSafetyDepositConfig, Key, LookupView, ManagerView,
    MasterEdition, Metadata, Mint, OriginalAuthorityLookup, RecordInfo, RecordInfoV,
    SafetyDepositBox, SafetyDepositConfigRecord, Store, TokenAccount, TransferView, Vault,
    VaultState, WhitelistedCreator,
};
use crate::validate::{
    process_validate_fraction_safety_deposit_box, spec_validate, ValidateArgs, ValidateData,
};

/// A configuration record held in the arena, keyed by its derived address.
pub struct ConfigEntry {
    pub address: Address,
    pub record: SafetyDepositConfigRecord,
}

/// Ghost view of a held configuration record.
#[verifier::ext_equal]
pub struct ConfigEntryView {
    pub address: Seq<u8>,
    pub record: ConfigRecordView,
}

impl View for ConfigEntry {
    type V = ConfigEntryView;

    open spec fn view(&self) -> ConfigEntryView {
        ConfigEntryView { address: self.address@, record: self.record@ }
    }
}

/// An authority-lookup record held in the arena, keyed by its derived
/// address.
pub struct LookupEntry {
    pub address: Address,
    pub record: OriginalAuthorityLookup,
}

/// Ghost view of a held authority-lookup record.
#[verifier::ext_equal]
pub struct LookupEntryView {
    pub address: Seq<u8>,
    pub record: LookupView,
}

impl View for LookupEntry {
    type V = LookupEntryView;

    open spec fn view(&self) -> LookupEntryView {
        LookupEntryView { address: self.address@, record: self.record@ }
    }
}

/// Ghost view of a configuration arena.
pub open spec fn configs_view(s: Seq<ConfigEntry>) -> Seq<ConfigEntryView> {
    s.map_values(|c: ConfigEntry| c@)
}

/// Ghost view of an authority-lookup arena.
pub open spec fn lookups_view(s: Seq<LookupEntry>) -> Seq<LookupEntryView> {
    s.map_values(|l: LookupEntry| l@)
}

/// Ghost view of the performed hand-offs.
pub open spec fn transfers_view(s: Seq<AuthorityTransfer>) -> Seq<TransferView> {
    s.map_values(|t: AuthorityTransfer| t@)
}

/// Whether the configuration arena holds a record at an address.
pub open spec fn spec_has_config(s: Seq<ConfigEntryView>, a: Seq<u8>) -> bool {
    exists|i: int| 0 <= i < s.len() && s[i].address == a
}

/// Whether the authority-lookup arena holds a record at an address.
pub open spec fn spec_has_lookup(s: Seq<LookupEntryView>, a: Seq<u8>) -> bool {
    exists|i: int| 0 <= i < s.len() && s[i].address == a
}

fn has_config(v: &Vec<ConfigEntry>, a: &Address) -> (r: bool)
    ensures
        r == spec_has_config(configs_view(v@), a@),
{
    let mut i: usize = 0;
    while i < v.len()
        invariant
            i <= v@.len(),
            forall|j: int| 0 <= j < i ==> configs_view(v@)[j].address != a@,
        decreases v@.len() - i,
    {
        if v[i].address.eq_addr(a) {
            proof {
                let wi = i as int;
                assert(configs_view(v@)[wi].address == a@);
            }
            return true;
        }
        i = i + 1;
    }
    false
}

fn has_lookup(v: &Vec<LookupEntry>, a: &Address) -> (r: bool)
    ensures
        r == spec_has_lookup(lookups_view(v@), a@),
{
    let mut i: usize = 0;
    while i < v.len()
        invariant
            i <= v@.len(),
            forall|j: int| 0 <= j < i ==> lookups_view(v@)[j].address != a@,
        decreases v@.len() - i,
    {
        if v[i].address.eq_addr(a) {
            proof {
                let wi = i as int;
                assert(lookups_view(v@)[wi].address == a@);
            }
            return true;
        }
        i = i + 1;
    }
    false
}

/// The fraction engine: one manager bound to one vault and one registry,
/// with the arena of records created at derived addresses.
pub struct FractionEngine {
    pub program_id: Address,
    pub store_info: RecordInfo,
    pub store: Store,
    pub vault_info: RecordInfo,
    pub vault: Vault,
    pub manager_address: Address,
    pub manager_bump: u8,
    pub manager: FractionManager,
    pub configs: Vec<ConfigEntry>,
    pub lookups: Vec<LookupEntry>,
    pub transfers: Vec<AuthorityTransfer>,
}

/// Ghost view of the engine.
#[verifier::ext_equal]
pub struct EngineView {
    pub program_id: Seq<u8>,
    pub store_info: RecordInfoV,
    pub store: Store,
    pub vault_info: RecordInfoV,
    pub vault: Vault,
    pub manager_address: Seq<u8>,
    pub manager_bump: u8,
    pub manager: ManagerView,
    pub configs: Seq<ConfigEntryView>,
    pub lookups: Seq<LookupEntryView>,
    pub transfers: Seq<TransferView>,
}

impl View for FractionEngine {
    type V = EngineView;

    open spec fn view(&self) -> EngineView {
        EngineView {
            program_id: self.program_id@,
            store_info: self.store_info@,
            store: self.store,
            vault_info: self.vault_info@,
            vault: self.vault,
            manager_address: self.manager_address@,
            manager_bump: self.manager_bump,
            manager: self.manager@,
            configs: configs_view(self.configs@),
            lookups: lookups_view(self.lookups@),
            transfers: transfers_view(self.transfers@),
        }
    }
}

/// The engine's invariant. The counter equals the number of configuration
/// records, never exceeds the vault's declared slot count, and the manager
/// is flagged Validated exactly when the counter reaches that count.
pub open spec fn wf_view(ev: EngineView) -> bool {
    &&& ev.program_id.len() == 32
    &&& ev.store.token_metadata_program@.len() == 32
    &&& ev.manager.safety_config_items_validated == ev.configs.len()
    &&& ev.manager.safety_config_items_validated <= ev.vault.token_type_count as u64
    &&& (ev.manager.status is Validated <==> ev.manager.safety_config_items_validated
        == ev.vault.token_type_count as u64)
    &&& (ev.manager.status is Initialized || ev.manager.status is Validated)
    &&& ev.vault.token_type_count > 0
    &&& (forall|i: int, j: int|
        0 <= i < j < ev.configs.len() ==> ev.configs[i].address != ev.configs[j].address)
    &&& ev.manager.vault == ev.vault_info.address
}

/// Everything one slot-validation call supplies to the engine.
pub struct SlotInputs {
    pub safety_deposit_config_address: Address,
    pub original_authority_lookup_address: Address,
    pub metadata_info: RecordInfo,
    pub metadata: Metadata,
    pub whitelisted_creator_info: RecordInfo,
    pub whitelisted_creator: Option<WhitelistedCreator>,
    pub safety_deposit_info: RecordInfo,
    pub safety_deposit: SafetyDepositBox,
    pub safety_deposit_token_store_info: RecordInfo,
    pub safety_deposit_token_store: TokenAccount,
    pub mint_info: RecordInfo,
    pub mint: Mint,
    pub edition_info: RecordInfo,
    pub master_edition: Option<MasterEdition>,
    pub authority_key: Address,
    pub metadata_authority_key: Address,
    pub token_metadata_program_key: Address,
    pub safety_deposit_config: FractionSafetyDepositConfig,
}

/// The validation data an engine state and a call's inputs denote. The
/// emptiness of the configuration and authority-lookup accounts is what the
/// arena holds at their supplied addresses; both are owned by this program.
pub open spec fn engine_data(ev: EngineView, inp: SlotInputs) -> ValidateData {
    ValidateData {
        program_id: ev.program_id,
        safety_deposit_config_info: RecordInfoV {
            address: inp.safety_deposit_config_address@,
            owner: ev.program_id,
            is_empty: !spec_has_config(ev.configs, inp.safety_deposit_config_address@),
        },
        fraction_manager_info: RecordInfoV {
            address: ev.manager_address,
            owner: ev.program_id,
            is_empty: false,
        },
        metadata_info: inp.metadata_info@,
        original_authority_lookup_info: RecordInfoV {
            address: inp.original_authority_lookup_address@,
            owner: ev.program_id,
            is_empty: !spec_has_lookup(ev.lookups, inp.original_authority_lookup_address@),
        },
        whitelisted_creator_info: inp.whitelisted_creator_info@,
        fraction_manager_store_info: ev.store_info,
        safety_deposit_info: inp.safety_deposit_info@,
        safety_deposit_token_store_info: inp.safety_deposit_token_store_info@,
        mint_info: inp.mint_info@,
        edition_info: inp.edition_info@,
        vault_info: ev.vault_info,
        authority_key: inp.authority_key@,
        metadata_authority_key: inp.metadata_authority_key@,
        token_metadata_program_key: inp.token_metadata_program_key@,
        fraction_manager: ev.manager,
        safety_deposit: inp.safety_deposit,
        metadata: inp.metadata,
        store: ev.store,
        vault: ev.vault,
        mint: inp.mint,
        safety_deposit_token_store: inp.safety_deposit_token_store,
        master_edition: inp.master_edition,
        whitelisted_creator: inp.whitelisted_creator,
        config: inp.safety_deposit_config@,
    }
}

/// The engine's transition for one slot validation: the decision of
/// `spec_validate` on the denoted data, and on success the next state, with
/// the outcome's records appended to the arena.
pub open spec fn spec_engine_validate(ev: EngineView, inp: SlotInputs) -> Result<
    EngineView,
    FractionError,
> {
    match spec_validate(engine_data(ev, inp)) {
        Err(e) => Err(e),
        Ok(o) => Ok(
            EngineView {
                program_id: ev.program_id,
                store_info: ev.store_info,
                store: ev.store,
                vault_info: ev.vault_info,
                vault: ev.vault,
                manager_address: ev.manager_address,
                manager_bump: ev.manager_bump,
                manager: o.fraction_manager,
                configs: ev.configs.push(
                    ConfigEntryView { address: o.config_address, record: o.config_record },
                ),
                lookups: match o.hand_off {
                    Some(h) => ev.lookups.push(
                        LookupEntryView { address: h.lookup_address, record: h.lookup },
                    ),
                    None => ev.lookups,
                },
                transfers: match o.hand_off {
                    Some(h) => ev.transfers.push(h.transfer),
                    None => ev.transfers,
                },
            },
        ),
    }
}

impl FractionEngine {
    /// The engine's invariant, on its ghost view.
    pub open spec fn wf(&self) -> bool {
        wf_view(self@)
    }

    /// Validate one deposit slot, atomically: on success the manager is
    /// advanced and the new records join the arena; on failure the state is
    /// exactly what it was.
    pub fn validate_slot(&mut self, inp: SlotInputs) -> (r: Result<(), FractionError>)
        requires
            old(self).wf(),
        ensures
            final(self).wf(),
            (r matches Ok(u) ==> spec_engine_validate(old(self)@, inp) matches Ok(ev)
                && final(self)@ == ev),
            (r matches Err(e) ==> *final(self) == *old(self)
                && (spec_engine_validate(old(self)@, inp) matches Err(e2) && e == e2)),
            (r is Ok ==> final(self).manager.safety_config_items_validated
                == old(self).manager.safety_config_items_validated + 1),
    {
        let config_is_empty = !has_config(&self.configs, &inp.safety_deposit_config_address);
        let lookup_is_empty = !has_lookup(&self.lookups, &inp.original_authority_lookup_address);
        let config_info = RecordInfo {
            address: inp.safety_deposit_config_address.dup(),
            owner: self.program_id.dup(),
            is_empty: config_is_empty,
        };
        let manager_info = RecordInfo {
            address: self.manager_address.dup(),
            owner: self.program_id.dup(),
            is_empty: false,
        };
        let lookup_info = RecordInfo {
            address: inp.original_authority_lookup_address.dup(),
            owner: self.program_id.dup(),
            is_empty: lookup_is_empty,
        };
        let vargs = ValidateArgs {
            program_id: &self.program_id,
            safety_deposit_config_info: &config_info,
            fraction_manager_info: &manager_info,
            metadata_info: &inp.metadata_info,
            original_authority_lookup_info: &lookup_info,
            whitelisted_creator_info: &inp.whitelisted_creator_info,
            fraction_manager_store_info: &self.store_info,
            safety_deposit_info: &inp.safety_deposit_info,
            safety_deposit_token_store_info: &inp.safety_deposit_token_store_info,
            mint_info: &inp.mint_info,
            edition_info: &inp.edition_info,
            vault_info: &self.vault_info,
            authority_key: &inp.authority_key,
            metadata_authority_key: &inp.metadata_authority_key,
            token_metadata_program_key: &inp.token_metadata_program_key,
            fraction_manager: &self.manager,
            safety_deposit: &inp.safety_deposit,
            metadata: &inp.metadata,
            store: &self.store,
            vault: &self.vault,
            mint: &inp.mint,
            safety_deposit_token_store: &inp.safety_deposit_token_store,
            master_edition: &inp.master_edition,
            whitelisted_creator: &inp.whitelisted_creator,
        };
        proof {
            assert(vargs.data(inp.safety_deposit_config@) =~= engine_data(old(self)@, inp));
        }
        let outcome = match process_validate_fraction_safety_deposit_box(
            vargs,
            inp.safety_deposit_config,
        ) {
            Ok(o) => o,
            Err(e) => {
                return Err(e);
            },
        };
        let ghost pre = old(self)@;
        self.manager = outcome.fraction_manager;
        match outcome.hand_off {
            Some(h) => {
                self.lookups.push(LookupEntry { address: h.lookup_address, record: h.lookup });
                self.transfers.push(h.transfer);
            },
            None => {},
        }
        self.configs.push(
            ConfigEntry { address: outcome.config_address, record: outcome.config_record },
        );
        proof {
            let post = spec_engine_validate(pre, inp)->Ok_0;
            assert(configs_view(self.configs@) =~= post.configs);
            assert(lookups_view(self.lookups@) =~= post.lookups);
            assert(transfers_view(self.transfers@) =~= post.transfers);
            assert(self@ =~= post);
            lemma_validate_wf(pre, inp);
        }
        Ok(())
    }
}

/// A successful transition preserves the invariant: the counter rises by
/// exactly one, stays equal to the number of configuration records, never
/// passes the vault's slot count, and the Validated flag appears exactly
/// when the counter reaches that count — never before, never reverted.
pub proof fn lemma_validate_wf(ev: EngineView, inp: SlotInputs)
    requires
        wf_view(ev),
        spec_engine_validate(ev, inp) is Ok,
    ensures
        (spec_engine_validate(ev, inp) matches Ok(post) ==> {
            &&& wf_view(post)
            &&& post.manager.safety_config_items_validated
                == ev.manager.safety_config_items_validated + 1
            &&& post.configs.len() == ev.configs.len() + 1
            &&& (post.manager.status is Validated <==> post.manager.safety_config_items_validated
                == ev.vault.token_type_count as u64)
            &&& ev.manager.status is Initialized
        }),
{
    let d = engine_data(ev, inp);
    let o = spec_validate(d)->Ok_0;
    let post = spec_engine_validate(ev, inp)->Ok_0;
    assert(d.safety_deposit_config_info.is_empty);
    assert(o.config_address == inp.safety_deposit_config_address@);
    assert(!spec_has_config(ev.configs, o.config_address));
    assert(forall|i: int, j: int|
        0 <= i < j < post.configs.len() ==> post.configs[i].address != post.configs[j].address)
    by {
        assert(forall|i: int| 0 <= i < ev.configs.len() ==> ev.configs[i].address
            != o.config_address);
    }
}

/// Everything an initialization call reads, as ghost data.
pub struct InitData {
    pub program_id: Seq<u8>,
    pub store_info: RecordInfoV,
    pub store: Store,
    pub vault_info: RecordInfoV,
    pub vault: Vault,
    pub external_price_account: ExternalPriceAccount,
    pub payment_account_info: RecordInfoV,
    pub payment_account: TokenAccount,
    pub accept_payment_mint: Seq<u8>,
    pub authority: Seq<u8>,
}

/// The initialization checks and, on success, the engine's first state: a
/// manager at its derived address, Initialized, with a zero counter and an
/// empty arena.
pub open spec fn spec_init(d: InitData) -> Result<
    (Seq<u8>, u8, ManagerView),
    FractionError,
> {
    match pda_of(spec_authority_seeds(d.vault_info.address), d.program_id) {
        None => Err(FractionError::DerivationMismatch),
        Some(p) => {
            let manager_address = p.0;
            if d.store_info.owner != d.program_id {
                Err(FractionError::IncorrectOwner)
            } else if d.vault_info.owner != d.store.token_vault_program@ {
                Err(FractionError::IncorrectOwner)
            } else if d.vault.authority@ != manager_address && d.vault.authority@ != d.authority {
                Err(FractionError::VaultAuthorityMismatch)
            } else if !(d.vault.state is Active) {
                Err(FractionError::VaultNotActive)
            } else if d.vault.token_type_count == 0 {
                Err(FractionError::VaultIsEmpty)
            } else if !d.payment_account.is_initialized {
                Err(FractionError::Uninitialized)
            } else if d.payment_account.mint@ != d.external_price_account.token_mint@ {
                Err(FractionError::PaymentMintMismatch)
            } else if d.payment_account.mint@ != d.accept_payment_mint {
                Err(FractionError::PaymentMintMismatch)
            } else if d.payment_account.owner@ != manager_address {
                Err(FractionError::PaymentOwnerMismatch)
            } else if d.payment_account.delegate is Some {
                Err(FractionError::PaymentAccountHasDelegate)
            } else if d.payment_account.close_authority is Some {
                Err(FractionError::PaymentAccountHasCloseAuthority)
            } else {
                Ok(
                    (
                        manager_address,
                        p.1,
                        ManagerView {
                            key: Key::FractionManagerV1,
                            store: d.store_info.address,
                            vault: d.vault_info.address,
                            authority: d.authority,
                            accept_payment: d.payment_account_info.address,
                            accept_payment_mint: d.accept_payment_mint,
                            status: FractionManagerStatus::Initialized,
                            safety_config_items_validated: 0,
                        },
                    ),
                )
            }
        },
    }
}

/// The ghost data an initialization call denotes.
pub open spec fn init_data(
    program_id: Address,
    store_info: RecordInfo,
    store: Store,
    vault_info: RecordInfo,
    vault: Vault,
    external_price_account: ExternalPriceAccount,
    payment_account_info: RecordInfo,
    payment_account: TokenAccount,
    accept_payment_mint: Address,
    authority: Address,
) -> InitData {
    InitData {
        program_id: program_id@,
        store_info: store_info@,
        store,
        vault_info: vault_info@,
        vault,
        external_price_account,
        payment_account_info: payment_account_info@,
        payment_account,
        accept_payment_mint: accept_payment_mint@,
        authority: authority@,
    }
}

/// Initialize a fraction manager bound to a vault and a payment asset: run
/// the initialization checks, derive the manager's address, and return the
/// engine in its Initialized state with an empty arena. On failure nothing
/// is created.
pub fn init_fraction_manager(
    program_id: Address,
    store_info: RecordInfo,
    store: Store,
    vault_info: RecordInfo,
    vault: Vault,
    external_price_account: ExternalPriceAccount,
    payment_account_info: RecordInfo,
    payment_account: TokenAccount,
    accept_payment_mint: Address,
    authority: Address,
) -> (r: Result<FractionEngine, FractionError>)
    requires
        program_id.wf(),
        store.token_metadata_program.wf(),
    ensures
        (r matches Ok(eng) ==> spec_init(
            init_data(
                program_id,
                store_info,
                store,
                vault_info,
                vault,
                external_price_account,
                payment_account_info,
                payment_account,
                accept_payment_mint,
                authority,
            ),
        ) matches Ok(m) && eng@.manager_address == m.0 && eng@.manager_bump == m.1 && eng@.manager
            == m.2 && eng@.program_id == program_id@ && eng@.store_info == store_info@
            && eng@.store == store && eng@.vault_info == vault_info@ && eng@.vault == vault
            && eng@.configs =~= Seq::<ConfigEntryView>::empty() && eng@.lookups =~= Seq::<
            LookupEntryView,
        >::empty() && eng@.transfers =~= Seq::<TransferView>::empty() && eng.wf()),
        (r matches Err(e) ==> spec_init(
            init_data(
                program_id,
                store_info,
                store,
                vault_info,
                vault,
                external_price_account,
                payment_account_info,
                payment_account,
                accept_payment_mint,
                authority,
            ),
        ) matches Err(e2) && e == e2),
{
    let seeds = authority_seeds(&vault_info.address);
    let derived = match derive_address(&seeds, &program_id) {
        Ok(p) => p,
        Err(e) => {
            return Err(e);
        },
    };
    let manager_address = derived.0;
    let manager_bump = derived.1;
    if !store_info.owner.eq_addr(&program_id) {
        return Err(FractionError::IncorrectOwner);
    }
    if !vault_info.owner.eq_addr(&store.token_vault_program) {
        return Err(FractionError::IncorrectOwner);
    }
    if !vault.authority.eq_addr(&manager_address) && !vault.authority.eq_addr(&authority) {
        return Err(FractionError::VaultAuthorityMismatch);
    }
    if vault.state != VaultState::Active {
        return Err(FractionError::VaultNotActive);
    }
    if vault.token_type_count == 0 {
        return Err(FractionError::VaultIsEmpty);
    }
    if !payment_account.is_initialized {
        return Err(FractionError::Uninitialized);
    }
    if !payment_account.mint.eq_addr(&external_price_account.token_mint) {
        return Err(FractionError::PaymentMintMismatch);
    }
    if !payment_account.mint.eq_addr(&accept_payment_mint) {
        return Err(FractionError::PaymentMintMismatch);
    }
    if !payment_account.owner.eq_addr(&manager_address) {
        return Err(FractionError::PaymentOwnerMismatch);
    }
    if payment_account.delegate.is_some() {
        return Err(FractionError::PaymentAccountHasDelegate);
    }
    if payment_account.close_authority.is_some() {
        return Err(FractionError::PaymentAccountHasCloseAuthority);
    }
    let manager = FractionManager {
        key: Key::FractionManagerV1,
        store: store_info.address.dup(),
        vault: vault_info.address.dup(),
        authority: authority.dup(),
        accept_payment: payment_account_info.address.dup(),
        accept_payment_mint: accept_payment_mint.dup(),
        status: FractionManagerStatus::Initialized,
        safety_config_items_validated: 0,
    };
    let engine = FractionEngine {
        program_id,
        store_info,
        store,
        vault_info,
        vault,
        manager_address,
        manager_bump,
        manager,
        configs: Vec::new(),
        lookups: Vec::new(),
        transfers: Vec::new(),
    };
    Ok(engine)
}

} // verus!
