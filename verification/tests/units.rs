//! Unit checks: price conversion vectors, address derivation, and every
//! error code.
use donaproto::errors::{CommandError, DonationError};
use donaproto::ids::{id_to_bytes, AccountId};
use donaproto::instructions::donate::Donate;
use donaproto::instructions::initialize_contributor::InitializeContributor;
use donaproto::pda::{
    derive_treasury_owner, find_address, find_contributor_address, treasury_prefix_bytes,
};
use donaproto::states::DonationData;
use donaproto::tokens::TokenAccount;
use donaproto::utils::{calculate_amount, calculate_amount_checked, identify_mint_decimals};
use donaproto::{create_donation, donate, initialize_contributor};
use anchor_lang::prelude::Pubkey;

fn id(n: u64) -> AccountId {
    AccountId { w0: n, w1: 0, w2: 0, w3: 0 }
}

const ONE_X64: u128 = 1 << 64;

#[test]
fn identify_decimals_orients_pair() {
    assert_eq!(identify_mint_decimals(6, 9, true), (6, 9));
    assert_eq!(identify_mint_decimals(6, 9, false), (9, 6));
}

#[test]
fn conversion_at_price_one_is_identity() {
    assert_eq!(calculate_amount(6, 6, 12345, ONE_X64, true), 12345);
    assert_eq!(calculate_amount(6, 6, 12345, ONE_X64, false), 12345);
}

#[test]
fn conversion_rounds_half_away_from_zero() {
    // sqrt price 2 in Q64.64: the price is 4
    let two_x64: u128 = 2 << 64;
    assert_eq!(calculate_amount(6, 6, 10, two_x64, true), 3); // 10 / 4 = 2.5
    assert_eq!(calculate_amount(6, 6, 9, two_x64, true), 2); // 9 / 4 = 2.25
    assert_eq!(calculate_amount(6, 6, 7, two_x64, false), 28); // 7 * 4
}

#[test]
fn conversion_round_trip_is_exact_when_multiplying_first() {
    let two_x64: u128 = 2 << 64;
    let y = calculate_amount(6, 6, 10, two_x64, false); // 10 * 4 = 40
    assert_eq!(y, 40);
    let z = calculate_amount(6, 6, y, two_x64, true); // 40 / 4 = 10
    assert_eq!(z, 10);
}

#[test]
fn conversion_overflow_is_reported() {
    // dividing the largest amount by the smallest positive price overflows
    assert_eq!(calculate_amount_checked(0, 0, u64::MAX, 1, true), None);
    assert_eq!(
        calculate_amount_checked(6, 6, 12345, ONE_X64, true),
        Some(12345)
    );
}

#[test]
fn derivation_is_deterministic() {
    let program = id(1);
    let protocol = id(2);
    let a = derive_treasury_owner(&protocol, 250, &program);
    let b = derive_treasury_owner(&protocol, 250, &program);
    assert_eq!(a, b);
    let found1 = find_address(treasury_prefix_bytes(), &vec![protocol], &program).unwrap();
    let found2 = find_address(treasury_prefix_bytes(), &vec![protocol], &program).unwrap();
    assert_eq!(found1, found2);
    // the derived signer is a fresh address, not any of the inputs
    assert_ne!(found1.0, protocol);
    assert_ne!(found1.0, program);
}

#[test]
fn derivation_matches_host_sdk() {
    let program = id(1);
    let protocol = id(2);
    let program_pk = Pubkey::new_from_array(id_to_bytes(&program).try_into().unwrap());
    let protocol_bytes = id_to_bytes(&protocol);
    let (expected, expected_bump) =
        Pubkey::try_find_program_address(&[b"treasury", &protocol_bytes], &program_pk).unwrap();
    let (got, got_bump) =
        find_address(treasury_prefix_bytes(), &vec![protocol], &program).unwrap();
    assert_eq!(got_bump, expected_bump);
    assert_eq!(id_to_bytes(&got), expected.to_bytes().to_vec());
    // and validating with the found bump reproduces the same address
    let again = derive_treasury_owner(&protocol, got_bump, &program).unwrap();
    assert_eq!(id_to_bytes(&again), expected.to_bytes().to_vec());
}

#[test]
fn wrong_bump_is_rejected() {
    let program = id(1);
    let protocol = id(2);
    let wallet = id(3);
    let (key, bump) = find_contributor_address(&protocol, &wallet, &program).unwrap();
    let ctx = InitializeContributor {
        program_id: program,
        contributor_data_key: key,
        donation_protocol_key: protocol,
        contributor_wallet_address: wallet,
        payer: wallet,
    };
    let r = initialize_contributor(&ctx, bump.wrapping_sub(1));
    assert_eq!(r, Err(CommandError::Custom(DonationError::InvalidBump)));
    let ok = initialize_contributor(&ctx, bump);
    assert!(ok.is_ok());
}


use donaproto::instructions::create_donation::CreateDonation;
use donaproto::instructions::initialize_creator::InitializeCreator;
use donaproto::instructions::initialize_donation_protocol::InitializeDonationProtocol;
use donaproto::pda::{find_creator_address, holding_prefix_bytes};
use donaproto::states::{ContributorData, CreatorData, DonationProtocolData};
use donaproto::tokens::Mint;
use donaproto::{initialize_creator, initialize_donation_protocol};

struct World {
    program: AccountId,
    protocol_key: AccountId,
    protocol: DonationProtocolData,
    donation_mint: Mint,
    reward_mint: Mint,
    treasury: TokenAccount,
    treasury_owner: AccountId,
    creator_wallet: AccountId,
    creator_key: AccountId,
    creator: CreatorData,
    user_wallet: AccountId,
    contributor_key: AccountId,
    contributor: ContributorData,
    user_token_wallet: TokenAccount,
    user_reward_wallet: TokenAccount,
    now: u64,
}

fn setup_world(min_earn: u64, min_collect: u64, treasury_balance: u64) -> World {
    let program = id(1);
    let protocol_key = id(2);
    let donation_mint = Mint { key: id(3), decimals: 6 };
    let reward_mint = Mint { key: id(4), decimals: 6 };
    let (treasury_owner, treasury_bump) =
        find_address(treasury_prefix_bytes(), &vec![protocol_key], &program).unwrap();
    let treasury = TokenAccount {
        key: id(5),
        mint: reward_mint.key,
        owner: treasury_owner,
        amount: treasury_balance,
    };
    let init = InitializeDonationProtocol {
        program_id: program,
        donation_protocol_data_key: protocol_key,
        treasury,
        treasury_mint: reward_mint,
        donation_mint,
        payer: id(6),
    };
    let protocol =
        initialize_donation_protocol(&init, min_earn, min_collect, treasury_bump).unwrap();
    let creator_wallet = id(7);
    let (creator_key, _) = find_creator_address(&protocol_key, &creator_wallet, &program).unwrap();
    let creator = initialize_creator(&InitializeCreator {
        program_id: program,
        creator_data_key: creator_key,
        donation_protocol_key: protocol_key,
        creator_wallet_address: creator_wallet,
        payer: creator_wallet,
    })
    .unwrap();
    let user_wallet = id(8);
    let (contributor_key, contributor_bump) =
        find_contributor_address(&protocol_key, &user_wallet, &program).unwrap();
    let contributor = initialize_contributor(
        &InitializeContributor {
            program_id: program,
            contributor_data_key: contributor_key,
            donation_protocol_key: protocol_key,
            contributor_wallet_address: user_wallet,
            payer: user_wallet,
        },
        contributor_bump,
    )
    .unwrap();
    let user_token_wallet =
        TokenAccount { key: id(9), mint: donation_mint.key, owner: user_wallet, amount: 100_000 };
    let user_reward_wallet =
        TokenAccount { key: id(10), mint: reward_mint.key, owner: user_wallet, amount: 0 };
    World {
        program,
        protocol_key,
        protocol,
        donation_mint,
        reward_mint,
        treasury,
        treasury_owner,
        creator_wallet,
        creator_key,
        creator,
        user_wallet,
        contributor_key,
        contributor,
        user_token_wallet,
        user_reward_wallet,
        now: 1_700_000_000,
    }
}

struct Campaign {
    key: AccountId,
    data: DonationData,
    holding: TokenAccount,
}

fn create_ctx_for(w: &World, key: AccountId, holding: TokenAccount, holding_owner: AccountId) -> CreateDonation {
    CreateDonation {
        program_id: w.program,
        donation_data_key: key,
        donation_protocol_key: w.protocol_key,
        donation_protocol: w.protocol,
        holding_wallet: holding,
        holding_wallet_owner: holding_owner,
        recipient: TokenAccount {
            key: id(22),
            mint: w.donation_mint.key,
            owner: w.creator_wallet,
            amount: 0,
        },
        creator_data_key: w.creator_key,
        creator_data: w.creator,
        donation_mint: w.donation_mint,
        creator_wallet_address: w.creator_wallet,
    }
}

fn try_create(
    w: &mut World,
    amount: u64,
    ipfs_hash: String,
    deadline: u64,
) -> Result<DonationData, CommandError> {
    let key = id(20);
    let (holding_owner, holding_bump) =
        find_address(holding_prefix_bytes(), &vec![key], &w.program).unwrap();
    let holding =
        TokenAccount { key: id(21), mint: w.donation_mint.key, owner: holding_owner, amount: 0 };
    let mut ctx = create_ctx_for(w, key, holding, holding_owner);
    let r = create_donation(&mut ctx, amount, ipfs_hash, deadline, holding_bump, w.now);
    if r.is_ok() {
        w.creator = ctx.creator_data;
    }
    r
}

fn open_test_campaign(w: &mut World, target: u64, deadline: u64) -> Campaign {
    let key = id(20);
    let (holding_owner, holding_bump) =
        find_address(holding_prefix_bytes(), &vec![key], &w.program).unwrap();
    let holding =
        TokenAccount { key: id(21), mint: w.donation_mint.key, owner: holding_owner, amount: 0 };
    let mut ctx = create_ctx_for(w, key, holding, holding_owner);
    let data = create_donation(
        &mut ctx,
        target,
        "QmCampaignDescription".to_string(),
        deadline,
        holding_bump,
        w.now,
    )
    .unwrap();
    w.creator = ctx.creator_data;
    Campaign { key, data, holding }
}

fn run_test_donate(w: &mut World, c: &mut Campaign, amount: u64) -> Result<(), CommandError> {
    let mut ctx = Donate {
        program_id: w.program,
        donation_data_key: c.key,
        donation_data: c.data.clone(),
        contributor_data_key: w.contributor_key,
        contributor_data: w.contributor,
        donation_protocol_key: w.protocol_key,
        donation_protocol: w.protocol,
        user_token_wallet: w.user_token_wallet,
        user_reward_token_wallet: w.user_reward_wallet,
        reward_treasury: w.treasury,
        reward_treasury_owner: w.treasury_owner,
        holding_wallet: c.holding,
        donation_mint: w.donation_mint,
        reward_mint: w.reward_mint,
        user_wallet: w.user_wallet,
    };
    let r = donate(&mut ctx, amount);
    if r.is_ok() {
        c.data = ctx.donation_data;
        w.contributor = ctx.contributor_data;
        w.user_token_wallet = ctx.user_token_wallet;
        w.user_reward_wallet = ctx.user_reward_token_wallet;
        w.treasury = ctx.reward_treasury;
        c.holding = ctx.holding_wallet;
    }
    r
}

#[test]
fn invalid_ending_timestamp() {
    let mut w = setup_world(100, 1000, 1_000_000);
    let t = w.now;
    let r = try_create(&mut w, 1000, "Qm".to_string(), t);
    assert_eq!(
        r,
        Err(CommandError::Custom(DonationError::InvalidEndingTimestamp))
    );
}

#[test]
fn ipfs_hash_too_long_rejected() {
    let mut w = setup_world(100, 1000, 1_000_000);
    let long_hash: String = "a".repeat(65);
    let t = w.now + 10;
    let r = try_create(&mut w, 1000, long_hash, t);
    assert_eq!(r, Err(CommandError::Custom(DonationError::IpfsHashTooLong)));
    let ok_hash: String = "a".repeat(64);
    let r2 = try_create(&mut w, 1000, ok_hash, t);
    assert!(!matches!(
        r2,
        Err(CommandError::Custom(DonationError::IpfsHashTooLong))
    ));
}

#[test]
fn target_below_minimum_rejected() {
    let mut w = setup_world(100, 1000, 1_000_000);
    let t = w.now + 10;
    let r = try_create(&mut w, 999, "Qm".to_string(), t);
    assert_eq!(
        r,
        Err(CommandError::Custom(DonationError::DonationAmountTooLow))
    );
}

#[test]
fn zero_donation_rejected() {
    let mut w = setup_world(100, 1000, 1_000_000);
    let deadline = w.now + 3600;
    let mut c = open_test_campaign(&mut w, 1000, deadline);
    let r = run_test_donate(&mut w, &mut c, 0);
    assert_eq!(
        r,
        Err(CommandError::Custom(DonationError::DonationAmountZero))
    );
}

#[test]
fn cross_mint_campaign_rejected_by_same_mint_path() {
    let mut w = setup_world(100, 1000, 1_000_000);
    let deadline = w.now + 3600;
    let mut c = open_test_campaign(&mut w, 1000, deadline);
    // a campaign record denominated in another mint slipped into the
    // same-mint path: its stored mint betrays it
    c.data = DonationData { donation_mint: id(99), ..c.data.clone() };
    let r = run_test_donate(&mut w, &mut c, 100);
    assert_eq!(
        r,
        Err(CommandError::Custom(DonationError::InvalidDonationMint))
    );
}

#[test]
fn mismatched_accounts_rejected() {
    let mut w = setup_world(100, 1000, 1_000_000);
    let deadline = w.now + 3600;
    let c = open_test_campaign(&mut w, 1000, deadline);
    // the donor hands in a wallet owned by someone else
    let mut ctx = Donate {
        program_id: w.program,
        donation_data_key: c.key,
        donation_data: c.data.clone(),
        contributor_data_key: w.contributor_key,
        contributor_data: w.contributor,
        donation_protocol_key: w.protocol_key,
        donation_protocol: w.protocol,
        user_token_wallet: TokenAccount { owner: id(77), ..w.user_token_wallet },
        user_reward_token_wallet: w.user_reward_wallet,
        reward_treasury: w.treasury,
        reward_treasury_owner: w.treasury_owner,
        holding_wallet: c.holding,
        donation_mint: w.donation_mint,
        reward_mint: w.reward_mint,
        user_wallet: w.user_wallet,
    };
    let r = donate(&mut ctx, 100);
    assert_eq!(r, Err(CommandError::Constraint));
    // nothing changed
    assert_eq!(ctx.donation_data, c.data);
}

#[test]
fn insufficient_balance_fails_transfer() {
    let mut w = setup_world(100, 1000, 1_000_000);
    let deadline = w.now + 3600;
    let mut c = open_test_campaign(&mut w, 1000, deadline);
    w.user_token_wallet.amount = 10;
    let r = run_test_donate(&mut w, &mut c, 100);
    assert_eq!(r, Err(CommandError::Transfer));
}

#[test]
fn conversion_extreme_prices() {
    // at the largest representable square-root price, dividing shrinks any
    // amount to nothing
    assert_eq!(calculate_amount_checked(6, 6, 1, u128::MAX, true), Some(0));
    // and multiplying by it overflows any positive amount
    assert_eq!(calculate_amount_checked(6, 6, 1, u128::MAX, false), None);
}

#[test]
fn stored_record_layout() {
    let p = donaproto::states::DonationProtocolData {
        treasury_mint: id(1),
        treasury: id(2),
        donation_mint: id(3),
        authority: id(4),
        min_amount_to_earn: 0x0102030405060708,
        min_amount_to_collect: 9,
        treasury_owner_bump: 0xAB,
    };
    let bytes = donaproto::layout::serialize_donation_protocol_data(&p);
    assert_eq!(bytes.len(), 145);
    // four 32-byte identifiers, little-endian words
    assert_eq!(bytes[0], 1);
    assert_eq!(bytes[32], 2);
    assert_eq!(bytes[64], 3);
    assert_eq!(bytes[96], 4);
    // min_amount_to_earn, little-endian at offset 128
    assert_eq!(&bytes[128..136], &[8, 7, 6, 5, 4, 3, 2, 1]);
    // the trailing nonce
    assert_eq!(bytes[144], 0xAB);

    let c = DonationData {
        amount_collecting: 1000,
        total_amount_received: 600,
        ending_timestamp: 42,
        is_closed: true,
        recipient: id(5),
        donation_protocol: id(6),
        holding_wallet: id(7),
        creator_data: id(8),
        donation_mint: id(9),
        holding_bump: 0xCD,
        ipfs_hash: "Qm".to_string(),
    };
    let cb = donaproto::layout::serialize_donation_data(&c);
    // fixed body: 24 + 1 + 160 + 1 + 4 + 64
    assert_eq!(cb.len(), 254);
    assert_eq!(cb[24], 1); // is_closed
    assert_eq!(cb[185], 0xCD); // holding_bump
    assert_eq!(&cb[186..190], &[2, 0, 0, 0]); // hash length prefix
    assert_eq!(&cb[190..192], b"Qm");
    assert!(cb[192..].iter().all(|b| *b == 0)); // slot padding

    let k = donaproto::states::ContributorData {
        total_amount_donated: 3,
        total_amount_earned: 4,
        donations_count: 5,
        donation_protocol: id(10),
        bump: 7,
    };
    let kb = donaproto::layout::serialize_contributor_data(&k);
    assert_eq!(kb.len(), 57);
    assert_eq!(kb[0], 3);
    assert_eq!(kb[56], 7);
}
