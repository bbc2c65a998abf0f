//! The stated laws of the engine: validation of a slot happens at most once,
//! an order-index mismatch is always rejected, the full-rights mode admits
//! exactly a total of one and records the original authority, and the print
//! supply bound is exact.

use vstd::prelude::*;

verus! {

use crate::address::{pda_of, spec_authority_seeds, spec_edition_seeds};
use crate::engine::{
    engine_data, spec_engine_validate, spec_has_config, EngineView, SlotInputs, wf_view,
};
use crate::error::FractionError;
use crate::records::Key;
use crate::supply::{spec_supply_logic, SupplyCheckData};
use crate::validate::spec_validate;

/// The engine state after a sequence of slot validations, provided every
/// one of them succeeds; nothing, if any of them fails.
pub open spec fn spec_run(ev: EngineView, inps: Seq<SlotInputs>) -> Option<EngineView>
    decreases inps.len(),
{
    if inps.len() == 0 {
        Some(ev)
    } else {
        match spec_engine_validate(ev, inps[0]) {
            Ok(next) => spec_run(next, inps.drop_first()),
            Err(e) => None,
        }
    }
}

/// Counter monotonicity over sequences: from a well-formed engine — as
/// initialization returns it, with a zero counter — k successful slot
/// validations raise the counter by exactly k, keep it equal to the number
/// of configuration records, and flag the manager Validated exactly when
/// the counter reaches the vault's declared slot count, never before.
pub proof fn lemma_counter_monotonic(ev: EngineView, inps: Seq<SlotInputs>)
    requires
        wf_view(ev),
        spec_run(ev, inps) is Some,
    ensures
        (spec_run(ev, inps) matches Some(post) ==> {
            &&& wf_view(post)
            &&& post.manager.safety_config_items_validated
                == ev.manager.safety_config_items_validated + inps.len()
            &&& post.manager.safety_config_items_validated == post.configs.len()
            &&& post.vault == ev.vault
            &&& (post.manager.status is Validated <==> post.manager.safety_config_items_validated
                == ev.vault.token_type_count as u64)
        }),
    decreases inps.len(),
{
    if inps.len() > 0 {
        crate::engine::lemma_validate_wf(ev, inps[0]);
        let next = spec_engine_validate(ev, inps[0])->Ok_0;
        lemma_counter_monotonic(next, inps.drop_first());
    }
}

/// Validating the same slot twice fails the second time with the
/// already-validated error, whatever else the second call supplies: after a
/// success, the arena holds the slot's configuration record at its derived
/// address, and the engine leaves failed calls without any mutation.
pub proof fn lemma_at_most_once(ev: EngineView, inp: SlotInputs, inp2: SlotInputs)
    requires
        wf_view(ev),
        spec_engine_validate(ev, inp) is Ok,
        inp2.safety_deposit_config_address@ == inp.safety_deposit_config_address@,
    ensures
        (spec_engine_validate(ev, inp) matches Ok(post) ==> spec_engine_validate(post, inp2)
            matches Err(e) && e == FractionError::AlreadyValidated),
{
    let post = spec_engine_validate(ev, inp)->Ok_0;
    let o = spec_validate(engine_data(ev, inp))->Ok_0;
    assert(o.config_address == inp.safety_deposit_config_address@);
    let n = post.configs.len() - 1;
    assert(post.configs[n].address == inp2.safety_deposit_config_address@);
    assert(spec_has_config(post.configs, inp2.safety_deposit_config_address@));
}

/// A configuration whose declared order index differs from the slot's own
/// order index is rejected, so no state mutation occurs for it.
pub proof fn lemma_order_enforced(ev: EngineView, inp: SlotInputs)
    requires
        inp.safety_deposit_config.order != inp.safety_deposit.order as u64,
    ensures
        spec_engine_validate(ev, inp) is Err,
{
    let d = engine_data(ev, inp);
    assert(d.config.order != d.safety_deposit.order as u64);
}

/// For the full-rights transfer mode, a requested total other than exactly
/// one is rejected; a success carries the authority-lookup record naming the
/// caller-supplied metadata authority as the original authority, and the
/// hand-off from that authority to the manager record.
pub proof fn lemma_full_rights_exactly_one(d: SupplyCheckData)
    requires
        d.winning_config_type is FractionFullRightsTransfer,
    ensures
        d.total_amount_requested != 1 ==> spec_supply_logic(d) is Err,
        (spec_supply_logic(d) matches Ok(h) ==> d.total_amount_requested == 1 && (h matches Some(
            ho,
        ) && ho.lookup.original_authority == d.metadata_authority_key && ho.lookup.key
            == Key::OriginalAuthorityLookupV1 && ho.transfer.from == d.metadata_authority_key
            && ho.transfer.to == d.fraction_manager_info.address)),
{
}

/// A successful full-rights validation appends exactly one authority-lookup
/// record, naming the supplied metadata authority, and exactly one authority
/// hand-off.
pub proof fn lemma_full_rights_hand_off(ev: EngineView, inp: SlotInputs)
    requires
        inp.safety_deposit_config.winning_config_type is FractionFullRightsTransfer,
        spec_engine_validate(ev, inp) is Ok,
    ensures
        (spec_engine_validate(ev, inp) matches Ok(post) ==> {
            &&& post.lookups.len() == ev.lookups.len() + 1
            &&& post.lookups.last().record.original_authority == inp.metadata_authority_key@
            &&& post.lookups.last().record.key == Key::OriginalAuthorityLookupV1
            &&& post.transfers.len() == ev.transfers.len() + 1
            &&& post.transfers.last().from == inp.metadata_authority_key@
        }),
{
    let d = engine_data(ev, inp);
    let o = spec_validate(d)->Ok_0;
    assert(o.hand_off is Some);
}

/// For the second-generation printing mode with a finite maximum supply,
/// when every other check of that branch passes, a request succeeds exactly
/// when it fits in the remaining supply.
pub proof fn lemma_print_supply_bound(d: SupplyCheckData)
    requires
        d.winning_config_type is PrintingV2,
        d.master_edition is Some,
        (d.master_edition->0).max_supply is Some,
        d.safety_deposit_token_store.is_initialized,
        pda_of(
            spec_edition_seeds(d.store.token_metadata_program@, d.metadata.mint@),
            d.store.token_metadata_program@,
        ) matches Some(ed) && ed.0 == d.edition_info.address,
        pda_of(spec_authority_seeds(d.fraction_manager.vault), d.program_id) is Some,
        d.safety_deposit.token_mint@ == d.metadata.mint@,
        d.safety_deposit_token_store.amount == 1,
        (d.master_edition->0).supply <= (d.master_edition->0).max_supply->0,
    ensures
        spec_supply_logic(d) is Ok <==> d.total_amount_requested
            <= (d.master_edition->0).max_supply->0 - (d.master_edition->0).supply,
        d.total_amount_requested > (d.master_edition->0).max_supply->0 - (
        d.master_edition->0).supply ==> spec_supply_logic(d) is Err,
{
}

} // verus!
