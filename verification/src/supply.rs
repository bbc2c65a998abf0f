//! The supply-logic validator: the per-transfer-mode branch that checks
//! quantity and custody constraints and, for the full-rights mode, requests
//! the authority hand-off and the restoration record that protects it.

use vstd::prelude::*;

verus! {

use crate::address::{
    authority_seeds, derive_address, edition_seeds, lookup_seeds, pda_of, spec_authority_seeds,
    spec_edition_seeds, spec_lookup_seeds, Address,
};
use crate::error::FractionError;
use crate::records::{
    AmountRange, AuthorityTransfer, FractionManager, FullRightsHandOff, HandOffView, Key,
    LookupView, ManagerView, MasterEdition, Metadata, OriginalAuthorityLookup, RecordInfo,
    RecordInfoV, SafetyDepositBox, Store, TokenAccount, TransferView, WinningConfigType,
    opt_hand_off_view,
};

/// The total quantity a configuration requests: the sum over its ranges of
/// `count * length`.
pub open spec fn spec_total_amount(ranges: Seq<AmountRange>) -> int
    decreases ranges.len(),
{
    if ranges.len() == 0 {
        0
    } else {
        spec_total_amount(ranges.drop_last()) + ranges.last().0 * ranges.last().1
    }
}

/// Every prefix of the range list requests at most the full total.
proof fn lemma_total_amount_prefix(ranges: Seq<AmountRange>, i: int)
    requires
        0 <= i <= ranges.len(),
    ensures
        spec_total_amount(ranges.subrange(0, i)) <= spec_total_amount(ranges),
    decreases ranges.len(),
{
    if i == ranges.len() {
        assert(ranges.subrange(0, i) =~= ranges);
    } else {
        let shorter = ranges.drop_last();
        assert(ranges.last().0 * ranges.last().1 >= 0) by (nonlinear_arith);
        assert(shorter.subrange(0, i) =~= ranges.subrange(0, i));
        lemma_total_amount_prefix(shorter, i);
    }
}

/// Compute the requested total, overflow-checked: the sum over all ranges of
/// `count * length`, or an overflow error when it does not fit.
pub fn total_amount_requested(ranges: &Vec<AmountRange>) -> (r: Result<u64, FractionError>)
    ensures
        (r matches Ok(v) ==> v == spec_total_amount(ranges@) && spec_total_amount(ranges@)
            <= u64::MAX),
        (r matches Err(e) ==> spec_total_amount(ranges@) > u64::MAX && e
            == FractionError::NumericalOverflowError),
{
    let mut sum: u64 = 0;
    let mut i: usize = 0;
    while i < ranges.len()
        invariant
            i <= ranges@.len(),
            sum == spec_total_amount(ranges@.subrange(0, i as int)),
        decreases ranges@.len() - i,
    {
        proof {
            assert(ranges@.subrange(0, i + 1).drop_last() =~= ranges@.subrange(0, i as int));
            assert(ranges@.subrange(0, i + 1).last() == ranges@[i as int]);
            lemma_total_amount_prefix(ranges@, i + 1);
        }
        let product = match ranges[i].0.checked_mul(ranges[i].1) {
            Some(p) => p,
            None => {
                return Err(FractionError::NumericalOverflowError);
            },
        };
        sum = match sum.checked_add(product) {
            Some(s) => s,
            None => {
                return Err(FractionError::NumericalOverflowError);
            },
        };
        i = i + 1;
    }
    proof {
        assert(ranges@.subrange(0, ranges@.len() as int) =~= ranges@);
    }
    Ok(sum)
}

/// Everything the supply-logic validator reads, as ghost data.
pub struct SupplyCheckData {
    pub program_id: Seq<u8>,
    pub fraction_manager_info: RecordInfoV,
    pub metadata_info: RecordInfoV,
    pub edition_info: RecordInfoV,
    pub metadata_authority_key: Seq<u8>,
    pub original_authority_lookup_info: RecordInfoV,
    pub safety_deposit_token_store: TokenAccount,
    pub fraction_manager: ManagerView,
    pub winning_config_type: WinningConfigType,
    pub metadata: Metadata,
    pub safety_deposit: SafetyDepositBox,
    pub store: Store,
    pub master_edition: Option<MasterEdition>,
    pub total_amount_requested: u64,
}

/// The supply-logic validator's decision: for the full-rights mode, success
/// carries the hand-off to perform; for every other accepted mode, success
/// carries nothing; each failure names its first failed check.
pub open spec fn spec_supply_logic(d: SupplyCheckData) -> Result<
    Option<HandOffView>,
    FractionError,
> {
    if !d.safety_deposit_token_store.is_initialized {
        Err(FractionError::Uninitialized)
    } else {
        let ed = pda_of(
            spec_edition_seeds(d.store.token_metadata_program@, d.metadata.mint@),
            d.store.token_metadata_program@,
        );
        let au = pda_of(spec_authority_seeds(d.fraction_manager.vault), d.program_id);
        if ed is None {
            Err(FractionError::DerivationMismatch)
        } else if au is None {
            Err(FractionError::DerivationMismatch)
        } else {
            let edition_key = (ed->0).0;
            let authority_bump = (au->0).1;
            match d.winning_config_type {
                WinningConfigType::FractionFullRightsTransfer => {
                    if d.metadata.update_authority@ != d.metadata_authority_key {
                        Err(FractionError::UpdateAuthorityIncorrect)
                    } else if d.safety_deposit.token_mint@ != d.metadata.mint@ {
                        Err(FractionError::SafetyDepositBoxMetadataMismatch)
                    } else if edition_key != d.edition_info.address {
                        Err(FractionError::InvalidEditionAddress)
                    } else if d.safety_deposit_token_store.amount != 1 {
                        Err(FractionError::StoreIsEmpty)
                    } else if d.total_amount_requested != 1 {
                        Err(FractionError::NotEnoughTokensToSupplyVaultBuyer)
                    } else {
                        let lk = pda_of(
                            spec_lookup_seeds(d.fraction_manager.vault, d.metadata_info.address),
                            d.program_id,
                        );
                        if lk is None {
                            Err(FractionError::DerivationMismatch)
                        } else if (lk->0).0 != d.original_authority_lookup_info.address {
                            Err(FractionError::FractionOriginalAuthorityLookupKeyMismatch)
                        } else {
                            Ok(
                                Some(
                                    HandOffView {
                                        lookup_address: (lk->0).0,
                                        lookup_bump: (lk->0).1,
                                        lookup: LookupView {
                                            key: Key::OriginalAuthorityLookupV1,
                                            original_authority: d.metadata_authority_key,
                                        },
                                        transfer: TransferView {
                                            metadata: d.metadata_info.address,
                                            from: d.metadata_authority_key,
                                            to: d.fraction_manager_info.address,
                                            proof_bump: authority_bump,
                                        },
                                    },
                                ),
                            )
                        }
                    }
                },
                WinningConfigType::TokenOnlyTransfer => {
                    if d.safety_deposit.token_mint@ != d.metadata.mint@ {
                        Err(FractionError::SafetyDepositBoxMetadataMismatch)
                    } else if d.safety_deposit_token_store.amount < d.total_amount_requested {
                        Err(FractionError::NotEnoughTokensToSupplyVaultBuyer)
                    } else {
                        Ok(None)
                    }
                },
                WinningConfigType::PrintingV2 => {
                    if edition_key != d.edition_info.address {
                        Err(FractionError::InvalidEditionAddress)
                    } else if d.master_edition is None {
                        Err(FractionError::DataTypeMismatch)
                    } else if d.safety_deposit.token_mint@ != d.metadata.mint@ {
                        Err(FractionError::SafetyDepositBoxMetadataMismatch)
                    } else if d.safety_deposit_token_store.amount != 1 {
                        Err(FractionError::NotEnoughTokensToSupplyVaultBuyer)
                    } else {
                        match (d.master_edition->0).max_supply {
                            Some(mx) => {
                                if mx < (d.master_edition->0).supply {
                                    Err(FractionError::NumericalOverflowError)
                                } else if mx - (d.master_edition->0).supply
                                    < d.total_amount_requested {
                                    Err(FractionError::NotEnoughTokensToSupplyVaultBuyer)
                                } else {
                                    Ok(None)
                                }
                            },
                            None => Ok(None),
                        }
                    }
                },
                WinningConfigType::PrintingV1 => Err(FractionError::PrintingV1NotAllowed),
                WinningConfigType::Participation => Err(FractionError::ParticipationNotSupported),
            }
        }
    }
}

/// The inputs of the supply-logic validator, handed in by reference.
pub struct SupplyLogicCheckArgs<'a> {
    pub program_id: &'a Address,
    pub fraction_manager_info: &'a RecordInfo,
    pub metadata_info: &'a RecordInfo,
    pub edition_info: &'a RecordInfo,
    pub metadata_authority_key: &'a Address,
    pub original_authority_lookup_info: &'a RecordInfo,
    pub safety_deposit_token_store: &'a TokenAccount,
    pub fraction_manager: &'a FractionManager,
    pub winning_config_type: &'a WinningConfigType,
    pub metadata: &'a Metadata,
    pub safety_deposit: &'a SafetyDepositBox,
    pub store: &'a Store,
    pub master_edition: &'a Option<MasterEdition>,
    pub total_amount_requested: u64,
}

impl<'a> SupplyLogicCheckArgs<'a> {
    /// The ghost data these inputs denote.
    pub open spec fn data(&self) -> SupplyCheckData {
        SupplyCheckData {
            program_id: self.program_id@,
            fraction_manager_info: self.fraction_manager_info@,
            metadata_info: self.metadata_info@,
            edition_info: self.edition_info@,
            metadata_authority_key: self.metadata_authority_key@,
            original_authority_lookup_info: self.original_authority_lookup_info@,
            safety_deposit_token_store: *self.safety_deposit_token_store,
            fraction_manager: self.fraction_manager@,
            winning_config_type: *self.winning_config_type,
            metadata: *self.metadata,
            safety_deposit: *self.safety_deposit,
            store: *self.store,
            master_edition: *self.master_edition,
            total_amount_requested: self.total_amount_requested,
        }
    }
}

/// Run the supply-logic check for the slot's declared transfer mode. The
/// full-rights mode returns the hand-off to perform; no state is mutated
/// here, and a failure leaves nothing to perform.
pub fn assert_supply_logic_check(args: SupplyLogicCheckArgs) -> (r: Result<
    Option<FullRightsHandOff>,
    FractionError,
>)
    requires
        args.program_id.wf(),
        args.store.token_metadata_program.wf(),
    ensures
        (r matches Ok(o) ==> spec_supply_logic(args.data()) matches Ok(ov) && opt_hand_off_view(o)
            == ov),
        (r matches Err(e) ==> spec_supply_logic(args.data()) matches Err(e2) && e == e2),
{
    if !args.safety_deposit_token_store.is_initialized {
        return Err(FractionError::Uninitialized);
    }
    let ed_seeds = edition_seeds(&args.store.token_metadata_program, &args.metadata.mint);
    let ed = match derive_address(&ed_seeds, &args.store.token_metadata_program) {
        Ok(p) => p,
        Err(e) => {
            return Err(e);
        },
    };
    let au_seeds = authority_seeds(&args.fraction_manager.vault);
    let au = match derive_address(&au_seeds, args.program_id) {
        Ok(p) => p,
        Err(e) => {
            return Err(e);
        },
    };
    let edition_key = ed.0;
    let authority_bump = au.1;
    match *args.winning_config_type {
        WinningConfigType::FractionFullRightsTransfer => {
            if !args.metadata.update_authority.eq_addr(args.metadata_authority_key) {
                return Err(FractionError::UpdateAuthorityIncorrect);
            }
            if !args.safety_deposit.token_mint.eq_addr(&args.metadata.mint) {
                return Err(FractionError::SafetyDepositBoxMetadataMismatch);
            }
            if !edition_key.eq_addr(&args.edition_info.address) {
                return Err(FractionError::InvalidEditionAddress);
            }
            if args.safety_deposit_token_store.amount != 1 {
                return Err(FractionError::StoreIsEmpty);
            }
            if args.total_amount_requested != 1 {
                return Err(FractionError::NotEnoughTokensToSupplyVaultBuyer);
            }
            let lk_seeds = lookup_seeds(&args.fraction_manager.vault, &args.metadata_info.address);
            let lk = match derive_address(&lk_seeds, args.program_id) {
                Ok(p) => p,
                Err(e) => {
                    return Err(e);
                },
            };
            if !lk.0.eq_addr(&args.original_authority_lookup_info.address) {
                return Err(FractionError::FractionOriginalAuthorityLookupKeyMismatch);
            }
            Ok(
                Some(
                    FullRightsHandOff {
                        lookup_address: lk.0,
                        lookup_bump: lk.1,
                        lookup: OriginalAuthorityLookup {
                            key: Key::OriginalAuthorityLookupV1,
                            original_authority: args.metadata_authority_key.dup(),
                        },
                        transfer: AuthorityTransfer {
                            metadata: args.metadata_info.address.dup(),
                            from: args.metadata_authority_key.dup(),
                            to: args.fraction_manager_info.address.dup(),
                            proof_bump: authority_bump,
                        },
                    },
                ),
            )
        },
        WinningConfigType::TokenOnlyTransfer => {
            if !args.safety_deposit.token_mint.eq_addr(&args.metadata.mint) {
                return Err(FractionError::SafetyDepositBoxMetadataMismatch);
            }
            if args.safety_deposit_token_store.amount < args.total_amount_requested {
                return Err(FractionError::NotEnoughTokensToSupplyVaultBuyer);
            }
            Ok(None)
        },
        WinningConfigType::PrintingV2 => {
            if !edition_key.eq_addr(&args.edition_info.address) {
                return Err(FractionError::InvalidEditionAddress);
            }
            if args.master_edition.is_none() {
                return Err(FractionError::DataTypeMismatch);
            }
            let me: &MasterEdition = args.master_edition.as_ref().unwrap();
            if !args.safety_deposit.token_mint.eq_addr(&args.metadata.mint) {
                return Err(FractionError::SafetyDepositBoxMetadataMismatch);
            }
            if args.safety_deposit_token_store.amount != 1 {
                return Err(FractionError::NotEnoughTokensToSupplyVaultBuyer);
            }
            match me.max_supply {
                Some(mx) => {
                    let available = match mx.checked_sub(me.supply) {
                        Some(a) => a,
                        None => {
                            return Err(FractionError::NumericalOverflowError);
                        },
                    };
                    if available < args.total_amount_requested {
                        return Err(FractionError::NotEnoughTokensToSupplyVaultBuyer);
                    }
                    Ok(None)
                },
                None => Ok(None),
            }
        },
        WinningConfigType::PrintingV1 => Err(FractionError::PrintingV1NotAllowed),
        WinningConfigType::Participation => Err(FractionError::ParticipationNotSupported),
    }
}

} // verus!
