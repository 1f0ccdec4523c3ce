use impact_nft::error::ErrorCode;
use impact_nft::external_programs::mpl_token_metadata::MplTokenMetadata;
use impact_nft::external_programs::mpl_token_metadata::MPL_TOKEN_METADATA_ID_HI;
use impact_nft::external_programs::mpl_token_metadata::MPL_TOKEN_METADATA_ID_LO;
use impact_nft::state::CoinType;
use impact_nft::state::FeeConfig;
use impact_nft::state::FeeType;
use impact_nft::state::GlobalState;
use impact_nft::state::OffsetMetadata;
use impact_nft::state::Pubkey;

fn key(n: u128) -> Pubkey {
    Pubkey::new(n, n + 1)
}

#[test]
fn pubkey_equality_is_by_words() {
    assert_eq!(key(3), key(3));
    assert_ne!(key(3), key(4));
    let k = Pubkey::new(1, 2);
    assert_eq!(k.hi, 1);
    assert_eq!(k.lo, 2);
}

#[test]
fn initialize_offset_metadata() {
    let m = OffsetMetadata::initialize(key(1), key(2), 42, 253, 3);
    assert_eq!(m.authority, key(1));
    assert_eq!(m.mint, key(2));
    assert_eq!(m.offset, 42);
    assert_eq!(m.bump, 253);
    assert_eq!(m.current_level_index, 3);
}

#[test]
fn offset_metadata_setters() {
    let mut m = OffsetMetadata::initialize(key(1), key(2), 0, 0, 0);
    m.set_amount(100);
    assert_eq!(m.offset, 100);
    assert_eq!(m.current_level_index, 0);

    m.set_level_index(4);
    assert_eq!(m.current_level_index, 4);
    assert_eq!(m.offset, 100);

    m.set(500, 7, 2);
    assert_eq!(m.offset, 500);
    assert_eq!(m.bump, 7);
    assert_eq!(m.current_level_index, 2);
    assert_eq!(m.authority, key(1));
    assert_eq!(m.mint, key(2));
}

#[test]
fn record_transition_overwrites_counter_and_index() {
    let mut m = OffsetMetadata::initialize(key(1), key(2), 10, 9, 0);
    m.record_transition(1000, 5);
    assert_eq!(m.offset, 1000);
    assert_eq!(m.current_level_index, 5);
    assert_eq!(m.bump, 9);

    // Monotonicity is not enforced: a lower counter is recorded as-is.
    m.record_transition(3, 1);
    assert_eq!(m.offset, 3);
    assert_eq!(m.current_level_index, 1);
}

#[test]
fn global_state_set_overwrites_all_fields() {
    let mut g = GlobalState {
        admin_update_authority: key(0),
        admin_mint_authority: key(0),
        levels: 0,
        fee: None,
    };
    let fee = FeeConfig {
        fee: 250,
        recipient: key(9),
        fee_type: FeeType::Percentage,
        coin_type: CoinType::Spl,
        spl_token_mint: Some(key(10)),
    };
    g.set(key(5), key(6), 10, Some(fee));
    assert_eq!(g.admin_update_authority, key(5));
    assert_eq!(g.admin_mint_authority, key(6));
    assert_eq!(g.levels, 10);
    let stored = g.fee.unwrap();
    assert_eq!(stored.fee, 250);
    assert_eq!(stored.recipient, key(9));
    assert_eq!(stored.fee_type, FeeType::Percentage);
    assert_eq!(stored.coin_type, CoinType::Spl);
    assert_eq!(stored.spl_token_mint, Some(key(10)));
}

#[test]
fn error_messages() {
    assert_eq!(
        ErrorCode::InvalidAdminAuthority.message(),
        "Wrong admin authority for offset state"
    );
    assert_eq!(
        ErrorCode::InvalidMintAuthority.message(),
        "Wrong mint authority for offset state"
    );
    assert_eq!(
        ErrorCode::InvalidOffsetMetadata.message(),
        "Invalid offset metadata pda"
    );
    assert_eq!(ErrorCode::NoOffsetTiers.message(), "Invalid offset tiers pda");
    assert_eq!(
        ErrorCode::InvalidUpdateForMint.message(),
        "Invalid update for mint"
    );
}

#[test]
fn token_metadata_program_id() {
    let id = MplTokenMetadata::id();
    assert_eq!(id.hi, MPL_TOKEN_METADATA_ID_HI);
    assert_eq!(id.lo, MPL_TOKEN_METADATA_ID_LO);
    // The two words reassemble to the program's 32-byte address.
    let mut bytes = [0u8; 32];
    bytes[..16].copy_from_slice(&id.hi.to_be_bytes());
    bytes[16..].copy_from_slice(&id.lo.to_be_bytes());
    assert_eq!(
        bytes,
        anchor_spl::metadata::mpl_token_metadata::programs::MPL_TOKEN_METADATA_ID.to_bytes()
    );
}
