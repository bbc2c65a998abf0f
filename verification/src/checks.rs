//! The common checks: the pure, side-effect-free predicate set run before any
//! mutation of a slot validation. Fail-fast: the result is the first failure
//! in a fixed order, or success.

use vstd::prelude::*;

verus! {

use crate::address::Address;
use crate::error::FractionError;
use crate::records::{
    Creator, FractionManager, ManagerView, Metadata, Mint, RecordInfo, RecordInfoV,
    SafetyDepositBox, Store, Vault, WhitelistedCreator, WinningConfigType,
};

/// Everything the common checks read, as ghost data.
pub struct CommonCheckData {
    pub program_id: Seq<u8>,
    pub fraction_manager_info: RecordInfoV,
    pub metadata_info: RecordInfoV,
    pub original_authority_lookup_info: RecordInfoV,
    pub whitelisted_creator_info: RecordInfoV,
    pub safety_deposit_info: RecordInfoV,
    pub safety_deposit_token_store_info: RecordInfoV,
    pub edition_info: RecordInfoV,
    pub vault_info: RecordInfoV,
    pub mint_info: RecordInfoV,
    pub token_metadata_program_key: Seq<u8>,
    pub fraction_manager_store_info: RecordInfoV,
    pub authority_key: Seq<u8>,
    pub store: Store,
    pub fraction_manager: ManagerView,
    pub metadata: Metadata,
    pub safety_deposit: SafetyDepositBox,
    pub vault: Vault,
    pub mint: Mint,
    pub whitelisted_creator: Option<WhitelistedCreator>,
    pub winning_config_type: WinningConfigType,
}

/// Every creator on the metadata carries a verification flag; an absent
/// creator list counts as all verified.
pub open spec fn spec_all_creators_verified(creators: Option<Vec<Creator>>) -> bool {
    match creators {
        Some(cs) => forall|i: int| 0 <= i < cs@.len() ==> cs@[i].verified,
        None => true,
    }
}

/// Some verified creator on the metadata matches the supplied, activated
/// whitelist entry.
pub open spec fn spec_creator_matches_whitelist(
    creators: Option<Vec<Creator>>,
    whitelist: Option<WhitelistedCreator>,
) -> bool {
    match creators {
        Some(cs) => match whitelist {
            Some(w) => w.activated && exists|i: int|
                0 <= i < cs@.len() && cs@[i].verified && cs@[i].address@ == w.address@,
            None => false,
        },
        None => false,
    }
}

/// At least one verified creator matches the whitelist, or the registry is
/// public and every creator is verified.
pub open spec fn spec_creators_ok(
    store: Store,
    metadata: Metadata,
    whitelist: Option<WhitelistedCreator>,
) -> bool {
    ||| (store.public && spec_all_creators_verified(metadata.creators))
    ||| spec_creator_matches_whitelist(metadata.creators, whitelist)
}

/// The common checks, in their fixed order: the first failed check names the
/// result, and success means every check passed.
pub open spec fn spec_common_checks(d: CommonCheckData) -> Result<(), FractionError> {
    if !d.mint.is_initialized {
        Err(FractionError::Uninitialized)
    } else if d.vault.authority@ != d.fraction_manager_info.address {
        Err(FractionError::VaultAuthorityMismatch)
    } else if d.fraction_manager_info.owner != d.program_id {
        Err(FractionError::IncorrectOwner)
    } else if d.metadata_info.owner != d.store.token_metadata_program@ {
        Err(FractionError::IncorrectOwner)
    } else if !d.original_authority_lookup_info.is_empty {
        Err(FractionError::AlreadyInitialized)
    } else if d.whitelisted_creator is Some && d.whitelisted_creator_info.is_empty {
        Err(FractionError::Uninitialized)
    } else if d.whitelisted_creator is Some && d.whitelisted_creator_info.owner != d.program_id {
        Err(FractionError::IncorrectOwner)
    } else if d.fraction_manager_store_info.owner != d.program_id {
        Err(FractionError::IncorrectOwner)
    } else if d.safety_deposit_info.owner != d.store.token_vault_program@ {
        Err(FractionError::IncorrectOwner)
    } else if d.safety_deposit_token_store_info.owner != d.store.token_program@ {
        Err(FractionError::IncorrectOwner)
    } else if d.mint_info.owner != d.store.token_program@ {
        Err(FractionError::IncorrectOwner)
    } else if d.winning_config_type != WinningConfigType::TokenOnlyTransfer
        && d.edition_info.owner != d.store.token_metadata_program@ {
        Err(FractionError::IncorrectOwner)
    } else if d.vault_info.owner != d.store.token_vault_program@ {
        Err(FractionError::IncorrectOwner)
    } else if d.token_metadata_program_key != d.store.token_metadata_program@ {
        Err(FractionError::FractionManagerTokenMetadataMismatch)
    } else if d.fraction_manager.authority != d.authority_key {
        Err(FractionError::FractionManagerAuthorityMismatch)
    } else if d.fraction_manager.vault != d.vault_info.address {
        Err(FractionError::FractionManagerVaultMismatch)
    } else if d.safety_deposit.vault@ != d.vault_info.address {
        Err(FractionError::SafetyDepositBoxVaultMismatch)
    } else if !spec_creators_ok(d.store, d.metadata, d.whitelisted_creator) {
        Err(FractionError::InvalidWhitelistedCreator)
    } else if d.fraction_manager.store != d.fraction_manager_store_info.address {
        Err(FractionError::FractionManagerStoreMismatch)
    } else if d.mint_info.address != d.safety_deposit.token_mint@ {
        Err(FractionError::SafetyDepositBoxMintMismatch)
    } else if d.token_metadata_program_key != d.store.token_metadata_program@ {
        Err(FractionError::FractionManagerTokenMetadataProgramMismatch)
    } else if d.mint_info.owner != d.store.token_program@ {
        Err(FractionError::TokenProgramMismatch)
    } else {
        Ok(())
    }
}

/// The inputs of the common checks, handed in by reference.
pub struct CommonCheckArgs<'a> {
    pub program_id: &'a Address,
    pub fraction_manager_info: &'a RecordInfo,
    pub metadata_info: &'a RecordInfo,
    pub original_authority_lookup_info: &'a RecordInfo,
    pub whitelisted_creator_info: &'a RecordInfo,
    pub safety_deposit_info: &'a RecordInfo,
    pub safety_deposit_token_store_info: &'a RecordInfo,
    pub edition_info: &'a RecordInfo,
    pub vault_info: &'a RecordInfo,
    pub mint_info: &'a RecordInfo,
    pub token_metadata_program_key: &'a Address,
    pub fraction_manager_store_info: &'a RecordInfo,
    pub authority_key: &'a Address,
    pub store: &'a Store,
    pub fraction_manager: &'a FractionManager,
    pub metadata: &'a Metadata,
    pub safety_deposit: &'a SafetyDepositBox,
    pub vault: &'a Vault,
    pub mint: &'a Mint,
    pub whitelisted_creator: &'a Option<WhitelistedCreator>,
    pub winning_config_type: &'a WinningConfigType,
}

impl<'a> CommonCheckArgs<'a> {
    /// The ghost data these inputs denote.
    pub open spec fn data(&self) -> CommonCheckData {
        CommonCheckData {
            program_id: self.program_id@,
            fraction_manager_info: self.fraction_manager_info@,
            metadata_info: self.metadata_info@,
            original_authority_lookup_info: self.original_authority_lookup_info@,
            whitelisted_creator_info: self.whitelisted_creator_info@,
            safety_deposit_info: self.safety_deposit_info@,
            safety_deposit_token_store_info: self.safety_deposit_token_store_info@,
            edition_info: self.edition_info@,
            vault_info: self.vault_info@,
            mint_info: self.mint_info@,
            token_metadata_program_key: self.token_metadata_program_key@,
            fraction_manager_store_info: self.fraction_manager_store_info@,
            authority_key: self.authority_key@,
            store: *self.store,
            fraction_manager: self.fraction_manager@,
            metadata: *self.metadata,
            safety_deposit: *self.safety_deposit,
            vault: *self.vault,
            mint: *self.mint,
            whitelisted_creator: *self.whitelisted_creator,
            winning_config_type: *self.winning_config_type,
        }
    }
}

/// Whether every creator on the metadata is verified.
fn all_creators_verified(creators: &Option<Vec<Creator>>) -> (r: bool)
    ensures
        r == spec_all_creators_verified(*creators),
{
    if creators.is_none() {
        return true;
    }
    let cs: &Vec<Creator> = creators.as_ref().unwrap();
    let mut i: usize = 0;
    while i < cs.len()
        invariant
            *creators is Some && (*creators)->0 == *cs,
            i <= cs@.len(),
            forall|j: int| 0 <= j < i ==> cs@[j].verified,
        decreases cs@.len() - i,
    {
        if !cs[i].verified {
            proof {
                let wi = i as int;
                assert(!cs@[wi].verified);
            }
            return false;
        }
        i = i + 1;
    }
    true
}

/// Whether some verified creator matches the supplied whitelist entry.
fn creator_matches_whitelist(
    creators: &Option<Vec<Creator>>,
    whitelist: &Option<WhitelistedCreator>,
) -> (r: bool)
    ensures
        r == spec_creator_matches_whitelist(*creators, *whitelist),
{
    if creators.is_none() || whitelist.is_none() {
        return false;
    }
    let cs: &Vec<Creator> = creators.as_ref().unwrap();
    let w: &WhitelistedCreator = whitelist.as_ref().unwrap();
    if !w.activated {
        return false;
    }
    let mut i: usize = 0;
    while i < cs.len()
        invariant
            *creators is Some && (*creators)->0 == *cs,
            *whitelist is Some && (*whitelist)->0 == *w,
            w.activated,
            i <= cs@.len(),
            forall|j: int| 0 <= j < i ==> !(cs@[j].verified && cs@[j].address@ == w.address@),
        decreases cs@.len() - i,
    {
        if cs[i].verified && cs[i].address.eq_addr(&w.address) {
            proof {
                let wi = i as int;
                assert(0 <= wi < cs@.len() && cs@[wi].verified && cs@[wi].address@ == w.address@);
            }
            return true;
        }
        i = i + 1;
    }
    false
}

/// Whether the creator rule holds: one verified creator matches the
/// whitelist, or the registry is public and all creators are verified.
fn creators_ok(
    store: &Store,
    metadata: &Metadata,
    whitelist: &Option<WhitelistedCreator>,
) -> (r: bool)
    ensures
        r == spec_creators_ok(*store, *metadata, *whitelist),
{
    if store.public && all_creators_verified(&metadata.creators) {
        return true;
    }
    creator_matches_whitelist(&metadata.creators, whitelist)
}

/// Run the common checks, returning the first failure or success. Pure: no
/// state is read or written beyond the arguments.
pub fn assert_common_checks(args: CommonCheckArgs) -> (r: Result<(), FractionError>)
    ensures
        r == spec_common_checks(args.data()),
{
    if !args.mint.is_initialized {
        return Err(FractionError::Uninitialized);
    }
    if !args.vault.authority.eq_addr(&args.fraction_manager_info.address) {
        return Err(FractionError::VaultAuthorityMismatch);
    }
    if !args.fraction_manager_info.owner.eq_addr(args.program_id) {
        return Err(FractionError::IncorrectOwner);
    }
    if !args.metadata_info.owner.eq_addr(&args.store.token_metadata_program) {
        return Err(FractionError::IncorrectOwner);
    }
    if !args.original_authority_lookup_info.is_empty {
        return Err(FractionError::AlreadyInitialized);
    }
    if args.whitelisted_creator.is_some() {
        if args.whitelisted_creator_info.is_empty {
            return Err(FractionError::Uninitialized);
        }
        if !args.whitelisted_creator_info.owner.eq_addr(args.program_id) {
            return Err(FractionError::IncorrectOwner);
        }
    }
    if !args.fraction_manager_store_info.owner.eq_addr(args.program_id) {
        return Err(FractionError::IncorrectOwner);
    }
    if !args.safety_deposit_info.owner.eq_addr(&args.store.token_vault_program) {
        return Err(FractionError::IncorrectOwner);
    }
    if !args.safety_deposit_token_store_info.owner.eq_addr(&args.store.token_program) {
        return Err(FractionError::IncorrectOwner);
    }
    if !args.mint_info.owner.eq_addr(&args.store.token_program) {
        return Err(FractionError::IncorrectOwner);
    }
    if *args.winning_config_type != WinningConfigType::TokenOnlyTransfer {
        if !args.edition_info.owner.eq_addr(&args.store.token_metadata_program) {
            return Err(FractionError::IncorrectOwner);
        }
    }
    if !args.vault_info.owner.eq_addr(&args.store.token_vault_program) {
        return Err(FractionError::IncorrectOwner);
    }
    if !args.token_metadata_program_key.eq_addr(&args.store.token_metadata_program) {
        return Err(FractionError::FractionManagerTokenMetadataMismatch);
    }
    if !args.fraction_manager.authority.eq_addr(args.authority_key) {
        return Err(FractionError::FractionManagerAuthorityMismatch);
    }
    if !args.fraction_manager.vault.eq_addr(&args.vault_info.address) {
        return Err(FractionError::FractionManagerVaultMismatch);
    }
    if !args.safety_deposit.vault.eq_addr(&args.vault_info.address) {
        return Err(FractionError::SafetyDepositBoxVaultMismatch);
    }
    if !creators_ok(args.store, args.metadata, args.whitelisted_creator) {
        return Err(FractionError::InvalidWhitelistedCreator);
    }
    if !args.fraction_manager.store.eq_addr(&args.fraction_manager_store_info.address) {
        return Err(FractionError::FractionManagerStoreMismatch);
    }
    if !args.mint_info.address.eq_addr(&args.safety_deposit.token_mint) {
        return Err(FractionError::SafetyDepositBoxMintMismatch);
    }
    if !args.token_metadata_program_key.eq_addr(&args.store.token_metadata_program) {
        return Err(FractionError::FractionManagerTokenMetadataProgramMismatch);
    }
    if !args.mint_info.owner.eq_addr(&args.store.token_program) {
        return Err(FractionError::TokenProgramMismatch);
    }
    Ok(())
}

} // verus!
