use treasure_hunt::error::TreasureHuntError;
use treasure_hunt::hunt::apply_mint_action;
use treasure_hunt::hunt::discover_treasure;
use treasure_hunt::hunt::initialize_treasure;
use treasure_hunt::hunt::new_treasure_record;
use treasure_hunt::hunt::CLAIM_MINT_AMOUNT;
use treasure_hunt::hunt::CREATOR_SHARE;
use treasure_hunt::hunt::MASTER_EDITION_MAX_SUPPLY;
use treasure_hunt::hunt::METADATA_IS_MUTABLE;
use treasure_hunt::hunt::METADATA_UPDATE_AUTHORITY_IS_SIGNER;
use treasure_hunt::hunt::SELLER_FEE_BASIS_POINTS;
use treasure_hunt::identity::AccountId;

fn sample_record(reward: u64) -> treasure_hunt::treasure::Treasure {
    new_treasure_record(
        AccountId([1u8; 32]),
        AccountId([2u8; 32]),
        String::from("Hidden Falls"),
        String::from("FALLS"),
        String::from("https://example.org/falls.json"),
        47_606_200,
        -122_332_100,
        reward,
    )
}

#[test]
fn created_record_stores_fields_verbatim() {
    let t = sample_record(500);
    assert_eq!(t.authority, AccountId([1u8; 32]));
    assert_eq!(t.mint, AccountId([2u8; 32]));
    assert_eq!(t.treasure_name, "Hidden Falls");
    assert_eq!(t.treasure_symbol, "FALLS");
    assert_eq!(t.treasure_uri, "https://example.org/falls.json");
    assert_eq!(t.location_lat, 47_606_200);
    assert_eq!(t.location_lng, -122_332_100);
    assert_eq!(t.bonk_reward, 500);
    assert!(!t.is_found);
    assert_eq!(t.finder, AccountId([0u8; 32]));
    assert_eq!(t.found_at, 0);
}

#[test]
fn discovery_claims_unfound_record() {
    let mut t = sample_record(500);
    let finder = AccountId([9u8; 32]);
    let outcome = discover_treasure(&mut t, finder, 1_700_000_000).unwrap();
    assert!(t.is_found);
    assert_eq!(t.finder, finder);
    assert_eq!(t.found_at, 1_700_000_000);
    assert_eq!(outcome.mint_action.amount, CLAIM_MINT_AMOUNT);
    assert_eq!(outcome.mint_action.amount, 1);
    assert_eq!(outcome.mint_action.mint, AccountId([2u8; 32]));
    assert_eq!(outcome.mint_action.to, finder);
    assert_eq!(outcome.mint_action.authority, AccountId([1u8; 32]));
}

#[test]
fn discovery_on_found_record_fails_unchanged() {
    let mut t = sample_record(500);
    let first = AccountId([9u8; 32]);
    discover_treasure(&mut t, first, 10).unwrap();
    let snapshot = t.clone();
    let err = discover_treasure(&mut t, AccountId([10u8; 32]), 20).unwrap_err();
    assert_eq!(err, TreasureHuntError::TreasureAlreadyFound);
    assert_eq!(t, snapshot);
}

#[test]
fn discovery_twice_mints_once() {
    let mut t = sample_record(500);
    let finder = AccountId([9u8; 32]);
    let mut balance: u64 = 0;
    let first = discover_treasure(&mut t, finder, 10);
    if let Ok(outcome) = &first {
        balance = apply_mint_action(balance, &outcome.mint_action).unwrap();
    }
    let second = discover_treasure(&mut t, finder, 11);
    if let Ok(outcome) = &second {
        balance = apply_mint_action(balance, &outcome.mint_action).unwrap();
    }
    assert!(first.is_ok());
    assert_eq!(second.unwrap_err(), TreasureHuntError::TreasureAlreadyFound);
    assert_eq!(balance, 1);
}

#[test]
fn reward_stored_verbatim_and_never_deducted() {
    let zero = sample_record(0);
    assert_eq!(zero.bonk_reward, 0);
    let mut t = sample_record(123_456_789);
    assert_eq!(t.bonk_reward, 123_456_789);
    let outcome = discover_treasure(&mut t, AccountId([9u8; 32]), 10).unwrap();
    assert_eq!(outcome.reward_logged, 123_456_789);
    assert_eq!(t.bonk_reward, 123_456_789);
    // The reward is advisory: the only action of a claim mints one unit of
    // the treasure's own token, and no balance shrinks anywhere.
    assert_eq!(outcome.mint_action.amount, 1);
}

#[test]
fn cave_scenario() {
    let authority = AccountId([1u8; 32]);
    let mint = AccountId([2u8; 32]);
    let claimant_x = AccountId([42u8; 32]);
    let mut t = new_treasure_record(
        authority,
        mint,
        String::from("Cave"),
        String::from("CAVE"),
        String::from("https://example.org/cave.json"),
        0,
        0,
        1000,
    );
    let outcome = discover_treasure(&mut t, claimant_x, 1_700_000_000).unwrap();
    assert!(t.is_found);
    assert_eq!(t.finder, claimant_x);
    assert_eq!(t.bonk_reward, 1000);
    let balance = apply_mint_action(0, &outcome.mint_action).unwrap();
    assert_eq!(balance, 1);
}

#[test]
fn race_exactly_one_succeeds() {
    // The host serializes the two competing transactions; whichever lands
    // second sees the record already claimed.
    let mut t = sample_record(500);
    let first = AccountId([7u8; 32]);
    let second = AccountId([8u8; 32]);
    let r1 = discover_treasure(&mut t, first, 30);
    let r2 = discover_treasure(&mut t, second, 31);
    assert!(r1.is_ok());
    assert_eq!(r2.unwrap_err(), TreasureHuntError::TreasureAlreadyFound);
    assert_eq!(t.finder, first);
    assert_eq!(t.found_at, 30);
}

#[test]
fn apply_mint_action_checks_overflow() {
    let mut t = sample_record(0);
    let outcome = discover_treasure(&mut t, AccountId([9u8; 32]), 10).unwrap();
    assert_eq!(apply_mint_action(u64::MAX, &outcome.mint_action), None);
    assert_eq!(apply_mint_action(u64::MAX - 1, &outcome.mint_action), Some(u64::MAX));
}

#[test]
fn initialize_plan_hands_over_creation_parameters() {
    let authority = AccountId([1u8; 32]);
    let mint = AccountId([2u8; 32]);
    let program = AccountId([3u8; 32]);
    let plan = initialize_treasure(
        authority,
        mint,
        program,
        String::from("Cave"),
        String::from("CAVE"),
        String::from("https://example.org/cave.json"),
        5,
        -5,
        1000,
    )
    .unwrap();
    assert_eq!(plan.treasure.treasure_name, "Cave");
    assert_eq!(plan.treasure.bonk_reward, 1000);
    assert!(!plan.treasure.is_found);
    assert_eq!(plan.metadata.name, "Cave");
    assert_eq!(plan.metadata.symbol, "CAVE");
    assert_eq!(plan.metadata.uri, "https://example.org/cave.json");
    assert_eq!(plan.metadata.seller_fee_basis_points, SELLER_FEE_BASIS_POINTS);
    assert_eq!(plan.metadata.seller_fee_basis_points, 500);
    assert_eq!(plan.metadata.creator.address, authority);
    assert!(!plan.metadata.creator.verified);
    assert_eq!(plan.metadata.creator.share, CREATOR_SHARE);
    assert_eq!(plan.metadata.creator.share, 100);
    assert_eq!(plan.metadata.is_mutable, METADATA_IS_MUTABLE);
    assert!(plan.metadata.is_mutable);
    assert_eq!(
        plan.metadata.update_authority_is_signer,
        METADATA_UPDATE_AUTHORITY_IS_SIGNER
    );
    assert!(plan.metadata.update_authority_is_signer);
    assert!(!plan.metadata.has_collection);
    assert!(!plan.metadata.has_uses);
    assert_eq!(plan.master_edition_max_supply, MASTER_EDITION_MAX_SUPPLY);
    assert_eq!(plan.master_edition_max_supply, 0);
}

#[test]
fn well_formedness_bounds_bytes_not_chars() {
    let mut t = sample_record(1);
    assert!(t.is_well_formed());
    // 50 ASCII characters fit the 50-byte name budget exactly.
    t.treasure_name = "x".repeat(50);
    assert_eq!(t.treasure_name.len(), 50);
    assert!(t.is_well_formed());
    // 30 two-byte characters are 30 chars but 60 bytes: over the budget.
    t.treasure_name = "\u{e9}".repeat(30);
    assert_eq!(t.treasure_name.chars().count(), 30);
    assert_eq!(t.treasure_name.len(), 60);
    assert!(!t.is_well_formed());
}

#[test]
fn well_formedness_requires_zero_claim_fields_until_found() {
    let mut t = sample_record(1);
    t.found_at = 7;
    assert!(!t.is_well_formed());
    t.found_at = 0;
    t.finder = AccountId([5u8; 32]);
    assert!(!t.is_well_formed());
    let mut claimed = sample_record(1);
    discover_treasure(&mut claimed, AccountId([5u8; 32]), 7).unwrap();
    assert!(claimed.is_well_formed());
}

#[test]
fn error_messages() {
    assert_eq!(
        TreasureHuntError::TreasureAlreadyFound.message(),
        "Treasure has already been found"
    );
    assert_eq!(TreasureHuntError::InvalidLocation.message(), "Invalid location");
}
