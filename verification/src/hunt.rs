//! The two state transitions of the treasure hunt: creation and discovery.
//!
//! Creation builds the record, the display-metadata parameters handed to the
//! external metadata service, and the derived addresses of the accounts that
//! service writes. Discovery flips the record's claim fields exactly once and
//! describes the single token unit to be minted to the finder. The external
//! calls themselves (account allocation, metadata creation, minting) are the
//! host's work; this module computes everything they are given.

use vstd::prelude::*;
use crate::error::TreasureHuntError;
use crate::identity::AccountId;
use crate::identity::zero_id;
use crate::pda::metadata_address;
use crate::pda::master_edition_address;
use crate::pda::metadata_seeds;
use crate::pda::master_edition_seeds;
use crate::pda::pda_of;
use crate::pda::pda_found;
use crate::treasure::Treasure;
use crate::treasure::byte_len;
use crate::treasure::NAME_MAX;
use crate::treasure::SYMBOL_MAX;
use crate::treasure::URI_MAX;

verus! {

/// Royalty taken by the creator, in basis points (5%).
pub const SELLER_FEE_BASIS_POINTS: u16 = 500;

/// Share of the single creator entry, in percent.
pub const CREATOR_SHARE: u8 = 100;

/// Number of token units minted to the finder at claim time.
pub const CLAIM_MINT_AMOUNT: u64 = 1;

/// Supply cap handed to the external master-edition service. In that
/// service's convention a cap of zero encodes its documented limit on
/// further copies of the claim token.
pub const MASTER_EDITION_MAX_SUPPLY: u64 = 0;

/// Whether the metadata account is created mutable.
pub const METADATA_IS_MUTABLE: bool = true;

/// Whether the update authority co-signs the metadata creation.
pub const METADATA_UPDATE_AUTHORITY_IS_SIGNER: bool = true;

/// The single creator entry written into the token's metadata.
#[derive(Clone, Debug, PartialEq)]
pub struct CreatorParams {
    /// The creator's identity: the treasure's authority.
    pub address: AccountId,
    /// Whether the entry is marked verified; always false at creation.
    pub verified: bool,
    /// The creator's share in percent; always [`CREATOR_SHARE`].
    pub share: u8,
}

/// The display metadata handed to the external metadata service.
#[derive(Clone, Debug, PartialEq)]
pub struct MetadataParams {
    /// Display name, copied verbatim from the treasure.
    pub name: String,
    /// Display symbol, copied verbatim.
    pub symbol: String,
    /// Metadata URI, copied verbatim.
    pub uri: String,
    /// Royalty in basis points; always [`SELLER_FEE_BASIS_POINTS`].
    pub seller_fee_basis_points: u16,
    /// The single, unverified creator entry.
    pub creator: CreatorParams,
    /// Whether the account is created mutable; always
    /// [`METADATA_IS_MUTABLE`].
    pub is_mutable: bool,
    /// Whether the update authority co-signs the creation; always
    /// [`METADATA_UPDATE_AUTHORITY_IS_SIGNER`].
    pub update_authority_is_signer: bool,
    /// Whether a collection entry is handed over; never at creation.
    pub has_collection: bool,
    /// Whether a uses entry is handed over; never at creation.
    pub has_uses: bool,
}

/// Everything a creation transaction writes or hands to external services.
#[derive(Clone, Debug, PartialEq)]
pub struct InitializePlan {
    /// The freshly initialized record.
    pub treasure: Treasure,
    /// The parameters of the metadata account to be created.
    pub metadata: MetadataParams,
    /// The derived address of the metadata account.
    pub metadata_account: AccountId,
    /// The derived address of the master-edition account.
    pub master_edition_account: AccountId,
    /// The supply cap of the master edition; always
    /// [`MASTER_EDITION_MAX_SUPPLY`].
    pub master_edition_max_supply: u64,
}

/// The one external action a successful discovery asks for: minting
/// [`CLAIM_MINT_AMOUNT`] units of the treasure's token to the finder.
#[derive(Clone, Debug, PartialEq)]
pub struct MintAction {
    /// The treasure's token.
    pub mint: AccountId,
    /// The recipient: the finder.
    pub to: AccountId,
    /// The mint authority: the treasure's authority.
    pub authority: AccountId,
    /// The number of units to mint.
    pub amount: u64,
}

/// What a successful discovery returns: the mint action and the advisory
/// reward quantity, which is logged but never transferred.
#[derive(Clone, Debug, PartialEq)]
pub struct DiscoverOutcome {
    /// The token units to credit to the finder.
    pub mint_action: MintAction,
    /// The advisory reward, exactly the record's stored quantity.
    pub reward_logged: u64,
}

/// Initialize the record for a new treasure.
///
/// Every valid creation leaves the record with `is_found == false`, the
/// finder equal to the zero identity, `found_at == 0`, and all supplied
/// fields stored verbatim.
pub fn new_treasure_record(
    authority: AccountId,
    mint: AccountId,
    treasure_name: String,
    treasure_symbol: String,
    treasure_uri: String,
    location_lat: i64,
    location_lng: i64,
    bonk_reward: u64,
) -> (t: Treasure)
    requires
        byte_len(treasure_name@) <= NAME_MAX,
        byte_len(treasure_symbol@) <= SYMBOL_MAX,
        byte_len(treasure_uri@) <= URI_MAX,
    ensures
        t.authority == authority,
        t.mint == mint,
        t.treasure_name@ == treasure_name@,
        t.treasure_symbol@ == treasure_symbol@,
        t.treasure_uri@ == treasure_uri@,
        t.location_lat == location_lat,
        t.location_lng == location_lng,
        t.bonk_reward == bonk_reward,
        !t.is_found,
        t.finder@ == zero_id(),
        t.found_at == 0,
        t.wf(),
{
    Treasure {
        authority,
        mint,
        treasure_name,
        treasure_symbol,
        treasure_uri,
        location_lat,
        location_lng,
        bonk_reward,
        is_found: false,
        finder: AccountId::zero(),
        found_at: 0,
    }
}

/// The display-metadata parameters of a new treasure: the strings verbatim,
/// a 5% royalty, a single unverified creator entry for the authority with a
/// 100% share, a mutable account, and no collection or uses entries.
pub fn metadata_params(
    authority: AccountId,
    name: String,
    symbol: String,
    uri: String,
) -> (m: MetadataParams)
    ensures
        m.name@ == name@,
        m.symbol@ == symbol@,
        m.uri@ == uri@,
        m.seller_fee_basis_points == SELLER_FEE_BASIS_POINTS,
        m.creator.address == authority,
        !m.creator.verified,
        m.creator.share == CREATOR_SHARE,
        m.is_mutable == METADATA_IS_MUTABLE,
        m.update_authority_is_signer == METADATA_UPDATE_AUTHORITY_IS_SIGNER,
        !m.has_collection,
        !m.has_uses,
{
    MetadataParams {
        name,
        symbol,
        uri,
        seller_fee_basis_points: SELLER_FEE_BASIS_POINTS,
        creator: CreatorParams { address: authority, verified: false, share: CREATOR_SHARE },
        is_mutable: METADATA_IS_MUTABLE,
        update_authority_is_signer: METADATA_UPDATE_AUTHORITY_IS_SIGNER,
        has_collection: false,
        has_uses: false,
    }
}

/// Plan the creation of a treasure: the record, the metadata parameters,
/// and the derived addresses of the metadata and master-edition accounts.
///
/// `None` exactly when the derivation rule yields no address for one of the
/// two account seed sets — statistically improbable, and a fixed fact of
/// the mint and program identities; every stored and handed-over value is
/// pinned down whenever a plan is returned.
pub fn initialize_treasure(
    authority: AccountId,
    mint: AccountId,
    metadata_program: AccountId,
    treasure_name: String,
    treasure_symbol: String,
    treasure_uri: String,
    location_lat: i64,
    location_lng: i64,
    bonk_reward: u64,
) -> (r: Option<InitializePlan>)
    requires
        byte_len(treasure_name@) <= NAME_MAX,
        byte_len(treasure_symbol@) <= SYMBOL_MAX,
        byte_len(treasure_uri@) <= URI_MAX,
    ensures
        r is Some <==> pda_found(metadata_seeds(metadata_program@, mint@), metadata_program@)
            && pda_found(master_edition_seeds(metadata_program@, mint@), metadata_program@),
        r is Some ==> {
            let plan = r.unwrap();
            &&& plan.treasure.authority == authority
            &&& plan.treasure.mint == mint
            &&& plan.treasure.treasure_name@ == treasure_name@
            &&& plan.treasure.treasure_symbol@ == treasure_symbol@
            &&& plan.treasure.treasure_uri@ == treasure_uri@
            &&& plan.treasure.location_lat == location_lat
            &&& plan.treasure.location_lng == location_lng
            &&& plan.treasure.bonk_reward == bonk_reward
            &&& !plan.treasure.is_found
            &&& plan.treasure.finder@ == zero_id()
            &&& plan.treasure.found_at == 0
            &&& plan.treasure.wf()
            &&& plan.metadata.name@ == treasure_name@
            &&& plan.metadata.symbol@ == treasure_symbol@
            &&& plan.metadata.uri@ == treasure_uri@
            &&& plan.metadata.seller_fee_basis_points == SELLER_FEE_BASIS_POINTS
            &&& plan.metadata.creator.address == authority
            &&& !plan.metadata.creator.verified
            &&& plan.metadata.creator.share == CREATOR_SHARE
            &&& plan.metadata.is_mutable == METADATA_IS_MUTABLE
            &&& plan.metadata.update_authority_is_signer == METADATA_UPDATE_AUTHORITY_IS_SIGNER
            &&& !plan.metadata.has_collection
            &&& !plan.metadata.has_uses
            &&& plan.metadata_account@ == pda_of(
                metadata_seeds(metadata_program@, mint@),
                metadata_program@,
            )
            &&& plan.master_edition_account@ == pda_of(
                master_edition_seeds(metadata_program@, mint@),
                metadata_program@,
            )
            &&& plan.master_edition_max_supply == MASTER_EDITION_MAX_SUPPLY
        },
{
    let metadata_account = match metadata_address(&mint, &metadata_program) {
        Some(a) => a,
        None => {
            return None;
        },
    };
    let master_edition_account = match master_edition_address(&mint, &metadata_program) {
        Some(a) => a,
        None => {
            return None;
        },
    };
    let metadata = metadata_params(
        authority,
        treasure_name.clone(),
        treasure_symbol.clone(),
        treasure_uri.clone(),
    );
    let treasure = new_treasure_record(
        authority,
        mint,
        treasure_name,
        treasure_symbol,
        treasure_uri,
        location_lat,
        location_lng,
        bonk_reward,
    );
    Some(
        InitializePlan {
            treasure,
            metadata,
            metadata_account,
            master_edition_account,
            master_edition_max_supply: MASTER_EDITION_MAX_SUPPLY,
        },
    )
}

/// The record after a successful discovery: found, claimed by `finder` at
/// time `now`, every other field unchanged.
pub open spec fn discovered(t: Treasure, finder: AccountId, now: i64) -> Treasure {
    Treasure { is_found: true, finder, found_at: now, ..t }
}

/// The mint action of a successful discovery of `t` by `finder`.
pub open spec fn claim_mint_action(t: Treasure, finder: AccountId) -> MintAction {
    MintAction { mint: t.mint, to: finder, authority: t.authority, amount: CLAIM_MINT_AMOUNT }
}

/// The discovery transition: the record afterwards, and either the outcome
/// or the error. A record already found is left unchanged and the claim
/// fails; otherwise the record is claimed and exactly one token unit is to
/// be minted to the finder.
pub open spec fn discover_spec(t: Treasure, finder: AccountId, now: i64) -> (
    Treasure,
    Result<DiscoverOutcome, TreasureHuntError>,
) {
    if t.is_found {
        (t, Err(TreasureHuntError::TreasureAlreadyFound))
    } else {
        (
            discovered(t, finder, now),
            Ok(
                DiscoverOutcome {
                    mint_action: claim_mint_action(t, finder),
                    reward_logged: t.bonk_reward,
                },
            ),
        )
    }
}

/// Claim a treasure.
///
/// On a record not yet found, sets `is_found`, records the claimant and the
/// supplied host timestamp, and returns the action minting exactly one
/// token unit to the claimant together with the advisory reward quantity.
/// On a record already found, fails with `TreasureAlreadyFound` and leaves
/// the record unchanged.
pub fn discover_treasure(treasure: &mut Treasure, finder: AccountId, now: i64) -> (r: Result<
    DiscoverOutcome,
    TreasureHuntError,
>)
    requires
        old(treasure).wf(),
    ensures
        (*final(treasure), r) == discover_spec(*old(treasure), finder, now),
        old(treasure).is_found ==> r == Result::<
            DiscoverOutcome,
            TreasureHuntError,
        >::Err(TreasureHuntError::TreasureAlreadyFound) && *final(treasure) == *old(treasure),
        !old(treasure).is_found ==> {
            &&& r is Ok
            &&& final(treasure).is_found
            &&& final(treasure).finder == finder
            &&& final(treasure).found_at == now
            &&& final(treasure).authority == old(treasure).authority
            &&& final(treasure).mint == old(treasure).mint
            &&& final(treasure).treasure_name@ == old(treasure).treasure_name@
            &&& final(treasure).treasure_symbol@ == old(treasure).treasure_symbol@
            &&& final(treasure).treasure_uri@ == old(treasure).treasure_uri@
            &&& final(treasure).location_lat == old(treasure).location_lat
            &&& final(treasure).location_lng == old(treasure).location_lng
            &&& final(treasure).bonk_reward == old(treasure).bonk_reward
            &&& r->Ok_0.mint_action == claim_mint_action(*old(treasure), finder)
            &&& r->Ok_0.mint_action.amount == CLAIM_MINT_AMOUNT
            &&& r->Ok_0.reward_logged == old(treasure).bonk_reward
        },
        final(treasure).wf(),
{
    if treasure.is_found {
        return Err(TreasureHuntError::TreasureAlreadyFound);
    }
    treasure.is_found = true;
    treasure.finder = finder;
    treasure.found_at = now;
    Ok(
        DiscoverOutcome {
            mint_action: MintAction {
                mint: treasure.mint,
                to: finder,
                authority: treasure.authority,
                amount: CLAIM_MINT_AMOUNT,
            },
            reward_logged: treasure.bonk_reward,
        },
    )
}

/// Credit a mint action to a token balance. `None` exactly when the credit
/// would overflow the balance.
pub fn apply_mint_action(balance: u64, action: &MintAction) -> (r: Option<u64>)
    ensures
        balance + action.amount <= u64::MAX ==> r == Some((balance + action.amount) as u64),
        balance + action.amount > u64::MAX ==> r is None,
{
    balance.checked_add(action.amount)
}

/// A treasure is claimed at most once: after a successful discovery, a
/// second discovery of the same record always fails with the
/// already-found condition and leaves the record unchanged — whoever the
/// second claimant is, so no second token unit is ever minted.
pub proof fn lemma_discovery_once(
    t: Treasure,
    f1: AccountId,
    n1: i64,
    f2: AccountId,
    n2: i64,
)
    requires
        !t.is_found,
    ensures
        ({
            let (t1, r1) = discover_spec(t, f1, n1);
            let (t2, r2) = discover_spec(t1, f2, n2);
            &&& r1 is Ok
            &&& r1->Ok_0.mint_action.amount == CLAIM_MINT_AMOUNT
            &&& r2 == Result::<DiscoverOutcome, TreasureHuntError>::Err(
                TreasureHuntError::TreasureAlreadyFound,
            )
            &&& t2 == t1
        }),
{
}

/// Discovery never touches the stored reward quantity: whatever the record
/// and the claim, the record afterwards holds the same `bonk_reward`, and
/// a successful claim reports exactly that quantity without deducting it
/// from anything.
pub proof fn lemma_reward_preserved(t: Treasure, finder: AccountId, now: i64)
    ensures
        discover_spec(t, finder, now).0.bonk_reward == t.bonk_reward,
        discover_spec(t, finder, now).1 is Ok ==> discover_spec(
            t,
            finder,
            now,
        ).1->Ok_0.reward_logged == t.bonk_reward,
{
}

} // verus!
