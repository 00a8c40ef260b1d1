//! End-to-end command sequences over one protocol deployment.
use donaproto::errors::{CommandError, DonationError};
use donaproto::ids::AccountId;
use donaproto::instructions::authorize_clmm::AuthorizeClmm;
use donaproto::instructions::authorize_pool::AuthorizeClmmPool;
use donaproto::instructions::create_donation::CreateDonation;
use donaproto::instructions::create_donation_v2::CreateDonationV2;
use donaproto::instructions::donate::Donate;
use donaproto::instructions::donate_v2::DonateV2;
use donaproto::instructions::initialize_contributor::InitializeContributor;
use donaproto::instructions::initialize_creator::InitializeCreator;
use donaproto::instructions::initialize_donation_protocol::InitializeDonationProtocol;
use donaproto::instructions::withdraw_funds::WithdrawFunds;
use donaproto::instructions::withdraw_funds_v2::WithdrawFundsV2;
use donaproto::pda::{
    find_address, find_contributor_address, find_creator_address, holding_prefix_bytes,
    treasury_prefix_bytes,
};
use donaproto::states::{
    ContributorData, CreatorData, DonationData, DonationProtocolData,
};
use donaproto::tokens::{Mint, PoolState, TokenAccount};
use donaproto::{
    authorize_clmm, authorize_clmm_pool, create_donation, create_donation_v2, donate, donate_v2,
    initialize_contributor, initialize_creator, initialize_donation_protocol, withdraw_funds,
    withdraw_funds_v2,
};

fn id(n: u64) -> AccountId {
    AccountId { w0: n, w1: 0, w2: 0, w3: 0 }
}

struct World {
    program: AccountId,
    protocol_key: AccountId,
    protocol: DonationProtocolData,
    donation_mint: Mint,
    reward_mint: Mint,
    treasury: TokenAccount,
    treasury_owner: AccountId,
    creator_wallet: AccountId,
    creator_key: AccountId,
    creator: CreatorData,
    user_wallet: AccountId,
    contributor_key: AccountId,
    contributor: ContributorData,
    user_token_wallet: TokenAccount,
    user_reward_wallet: TokenAccount,
    now: u64,
}

fn setup(min_earn: u64, min_collect: u64, treasury_balance: u64) -> World {
    let program = id(1);
    let protocol_key = id(2);
    let donation_mint = Mint { key: id(3), decimals: 6 };
    let reward_mint = Mint { key: id(4), decimals: 6 };
    let (treasury_owner, treasury_bump) =
        find_address(treasury_prefix_bytes(), &vec![protocol_key], &program).unwrap();
    let treasury = TokenAccount {
        key: id(5),
        mint: reward_mint.key,
        owner: treasury_owner,
        amount: treasury_balance,
    };
    let init = InitializeDonationProtocol {
        program_id: program,
        donation_protocol_data_key: protocol_key,
        treasury,
        treasury_mint: reward_mint,
        donation_mint,
        payer: id(6),
    };
    let protocol =
        initialize_donation_protocol(&init, min_earn, min_collect, treasury_bump).unwrap();

    let creator_wallet = id(7);
    let (creator_key, _) = find_creator_address(&protocol_key, &creator_wallet, &program).unwrap();
    let creator = initialize_creator(&InitializeCreator {
        program_id: program,
        creator_data_key: creator_key,
        donation_protocol_key: protocol_key,
        creator_wallet_address: creator_wallet,
        payer: creator_wallet,
    })
    .unwrap();

    let user_wallet = id(8);
    let (contributor_key, contributor_bump) =
        find_contributor_address(&protocol_key, &user_wallet, &program).unwrap();
    let contributor = initialize_contributor(
        &InitializeContributor {
            program_id: program,
            contributor_data_key: contributor_key,
            donation_protocol_key: protocol_key,
            contributor_wallet_address: user_wallet,
            payer: user_wallet,
        },
        contributor_bump,
    )
    .unwrap();

    let user_token_wallet =
        TokenAccount { key: id(9), mint: donation_mint.key, owner: user_wallet, amount: 100_000 };
    let user_reward_wallet =
        TokenAccount { key: id(10), mint: reward_mint.key, owner: user_wallet, amount: 0 };

    World {
        program,
        protocol_key,
        protocol,
        donation_mint,
        reward_mint,
        treasury,
        treasury_owner,
        creator_wallet,
        creator_key,
        creator,
        user_wallet,
        contributor_key,
        contributor,
        user_token_wallet,
        user_reward_wallet,
        now: 1_700_000_000,
    }
}

struct Campaign {
    key: AccountId,
    data: DonationData,
    holding: TokenAccount,
    holding_owner: AccountId,
    recipient: TokenAccount,
}

fn open_campaign(w: &mut World, target: u64, deadline: u64) -> Campaign {
    let key = id(20);
    let (holding_owner, holding_bump) =
        find_address(holding_prefix_bytes(), &vec![key], &w.program).unwrap();
    let holding = TokenAccount {
        key: id(21),
        mint: w.donation_mint.key,
        owner: holding_owner,
        amount: 0,
    };
    let recipient = TokenAccount {
        key: id(22),
        mint: w.donation_mint.key,
        owner: w.creator_wallet,
        amount: 0,
    };
    let mut ctx = CreateDonation {
        program_id: w.program,
        donation_data_key: key,
        donation_protocol_key: w.protocol_key,
        donation_protocol: w.protocol,
        holding_wallet: holding,
        holding_wallet_owner: holding_owner,
        recipient,
        creator_data_key: w.creator_key,
        creator_data: w.creator,
        donation_mint: w.donation_mint,
        creator_wallet_address: w.creator_wallet,
    };
    let data = create_donation(
        &mut ctx,
        target,
        "QmCampaignDescription".to_string(),
        deadline,
        holding_bump,
        w.now,
    )
    .unwrap();
    w.creator = ctx.creator_data;
    Campaign { key, data, holding, holding_owner, recipient }
}

fn run_donate(w: &mut World, c: &mut Campaign, amount: u64) -> Result<(), CommandError> {
    let mut ctx = Donate {
        program_id: w.program,
        donation_data_key: c.key,
        donation_data: c.data.clone(),
        contributor_data_key: w.contributor_key,
        contributor_data: w.contributor,
        donation_protocol_key: w.protocol_key,
        donation_protocol: w.protocol,
        user_token_wallet: w.user_token_wallet,
        user_reward_token_wallet: w.user_reward_wallet,
        reward_treasury: w.treasury,
        reward_treasury_owner: w.treasury_owner,
        holding_wallet: c.holding,
        donation_mint: w.donation_mint,
        reward_mint: w.reward_mint,
        user_wallet: w.user_wallet,
    };
    let r = donate(&mut ctx, amount);
    if r.is_ok() {
        c.data = ctx.donation_data;
        w.contributor = ctx.contributor_data;
        w.user_token_wallet = ctx.user_token_wallet;
        w.user_reward_wallet = ctx.user_reward_token_wallet;
        w.treasury = ctx.reward_treasury;
        c.holding = ctx.holding_wallet;
    }
    r
}

fn run_withdraw(w: &mut World, c: &mut Campaign, now: u64) -> Result<(), CommandError> {
    let mut ctx = WithdrawFunds {
        program_id: w.program,
        donation_data_key: c.key,
        donation_data: c.data.clone(),
        creator_data_key: w.creator_key,
        creator_data: w.creator,
        donation_protocol_key: w.protocol_key,
        donation_protocol: w.protocol,
        holding_wallet: c.holding,
        holding_wallet_owner: c.holding_owner,
        recipient_token_wallet: c.recipient,
        donation_mint: w.donation_mint,
        payer: w.creator_wallet,
    };
    let r = withdraw_funds(&mut ctx, now);
    if r.is_ok() {
        c.data = ctx.donation_data;
        w.creator = ctx.creator_data;
        c.holding = ctx.holding_wallet;
        c.recipient = ctx.recipient_token_wallet;
    }
    r
}

#[test]
fn happy_same_mint() {
    let mut w = setup(100, 1000, 1_000_000);
    let deadline = w.now + 3600;
    let mut c = open_campaign(&mut w, 1000, deadline);
    assert_eq!(w.creator.donations_created_count, 1);
    assert_eq!(w.creator.total_amount_collecting, 1000);

    run_donate(&mut w, &mut c, 600).unwrap();
    run_donate(&mut w, &mut c, 500).unwrap();
    assert_eq!(c.data.total_amount_received, 1100);
    assert_eq!(w.contributor.total_amount_donated, 1100);
    assert_eq!(w.contributor.donations_count, 2);
    // both donations reached the threshold and were fully covered by the treasury
    assert_eq!(w.contributor.total_amount_earned, 1100);
    assert_eq!(w.user_reward_wallet.amount, 1100);
    assert_eq!(w.treasury.amount, 1_000_000 - 1100);
    assert_eq!(c.holding.amount, 1100);

    // target reached before the deadline: withdrawal succeeds
    let t = w.now + 10;
    run_withdraw(&mut w, &mut c, t).unwrap();
    assert_eq!(c.recipient.amount, 1100);
    assert_eq!(c.holding.amount, 0);
    assert!(c.data.is_closed);
    assert_eq!(w.creator.total_amount_received, 1100);
    assert_eq!(w.creator.donations_closed_count, 1);
}

#[test]
fn deadline_only_close() {
    let mut w = setup(100, 1000, 1_000_000);
    let deadline = w.now + 3600;
    let mut c = open_campaign(&mut w, 1000, deadline);
    run_donate(&mut w, &mut c, 400).unwrap();
    assert_eq!(c.data.total_amount_received, 400);

    // past the deadline the target no longer matters
    run_withdraw(&mut w, &mut c, deadline + 1).unwrap();
    assert_eq!(c.recipient.amount, 400);
    assert!(c.data.is_closed);
}

#[test]
fn premature_withdraw_fails() {
    let mut w = setup(100, 1000, 1_000_000);
    let deadline = w.now + 3600;
    let mut c = open_campaign(&mut w, 1000, deadline);
    run_donate(&mut w, &mut c, 400).unwrap();

    let creator_before = w.creator;
    let data_before = c.data.clone();
    let holding_before = c.holding;
    let t = w.now + 10;
    let r = run_withdraw(&mut w, &mut c, t);
    assert_eq!(
        r,
        Err(CommandError::Custom(DonationError::EndingRequirementsNotMet))
    );
    assert_eq!(w.creator, creator_before);
    assert_eq!(c.data, data_before);
    assert_eq!(c.holding, holding_before);
}

#[test]
fn closed_campaign_rejects_donate() {
    let mut w = setup(100, 1000, 1_000_000);
    let deadline = w.now + 3600;
    let mut c = open_campaign(&mut w, 1000, deadline);
    run_donate(&mut w, &mut c, 600).unwrap();
    run_donate(&mut w, &mut c, 500).unwrap();
    let t = w.now + 10;
    run_withdraw(&mut w, &mut c, t).unwrap();

    let r = run_donate(&mut w, &mut c, 1);
    assert_eq!(r, Err(CommandError::Custom(DonationError::DonationClosed)));
}

#[test]
fn reward_capped_by_treasury() {
    // treasury holds 50; a donation of 1000 exceeds it, so the reward falls
    // back to a hundredth of the balance, which rounds down to zero
    let mut w = setup(100, 1000, 50);
    let deadline = w.now + 3600;
    let mut c = open_campaign(&mut w, 1000, deadline);
    run_donate(&mut w, &mut c, 1000).unwrap();
    assert_eq!(w.contributor.total_amount_earned, 0);
    assert_eq!(w.user_reward_wallet.amount, 0);
    assert_eq!(w.treasury.amount, 50);
    assert_eq!(c.data.total_amount_received, 1000);
}

#[test]
fn reward_fallback_pays_hundredth() {
    // treasury holds 5000, the donation of 10000 exceeds it: reward is 50
    let mut w = setup(100, 1000, 5000);
    let deadline = w.now + 3600;
    let mut c = open_campaign(&mut w, 10_000, deadline);
    run_donate(&mut w, &mut c, 10_000).unwrap();
    assert_eq!(w.contributor.total_amount_earned, 50);
    assert_eq!(w.user_reward_wallet.amount, 50);
    assert_eq!(w.treasury.amount, 4950);
}

#[test]
fn small_donation_earns_nothing() {
    let mut w = setup(100, 1000, 1_000_000);
    let deadline = w.now + 3600;
    let mut c = open_campaign(&mut w, 1000, deadline);
    run_donate(&mut w, &mut c, 99).unwrap();
    assert_eq!(w.contributor.total_amount_earned, 0);
    assert_eq!(w.contributor.total_amount_donated, 99);
    assert_eq!(w.contributor.donations_count, 1);
}

/// The pool price for the cross-mint scenario: one alt token (9 decimals)
/// is worth two default tokens (6 decimals), with the default mint as the
/// pool's first mint. The square-root price in Q64.64 form is
/// `isqrt(2000 * 2^128)`.
const CROSS_SQRT_PRICE_X64: u128 = 824963474247118971758;

#[test]
fn cross_mint_donate_converts() {
    let mut w = setup(100, 1000, 1_000_000);
    let alt_mint = Mint { key: id(30), decimals: 9 };
    let amm_program = id(31);
    let pool = PoolState {
        key: id(32),
        amm_config: id(33),
        token_mint_0: w.donation_mint.key,
        token_mint_1: alt_mint.key,
        sqrt_price_x64: CROSS_SQRT_PRICE_X64,
    };

    // authority allow-lists the AMM and the pool
    let (clmm_auth_key, _) = donaproto::pda::find_authorized_clmm_address(
        &w.protocol_key,
        &amm_program,
        &w.program,
    )
    .unwrap();
    let clmm = authorize_clmm(
        &AuthorizeClmm {
            program_id: w.program,
            authorized_clmm_key: clmm_auth_key,
            donation_protocol_key: w.protocol_key,
            donation_protocol: w.protocol,
            payer: id(6),
        },
        amm_program,
    )
    .unwrap();
    let (pool_auth_key, _) = donaproto::pda::find_authorized_pool_address(
        &w.protocol_key,
        &pool.key,
        &w.program,
    )
    .unwrap();
    let pool_auth = authorize_clmm_pool(&AuthorizeClmmPool {
        program_id: w.program,
        authorized_clmm_pool_key: pool_auth_key,
        pool_state: pool,
        amm_config_key: pool.amm_config,
        donation_protocol_key: w.protocol_key,
        donation_protocol: w.protocol,
        donation_amm_mint: alt_mint,
        authorized_clmm: clmm,
        payer: id(6),
    })
    .unwrap();
    assert_eq!(pool_auth.mint, alt_mint.key);
    assert_eq!(pool_auth.program_id, amm_program);

    // a campaign in the alt mint, with a target of 1000 alt units
    let campaign_key = id(40);
    let (holding_owner, holding_bump) =
        find_address(holding_prefix_bytes(), &vec![campaign_key], &w.program).unwrap();
    let holding = TokenAccount { key: id(41), mint: alt_mint.key, owner: holding_owner, amount: 0 };
    let recipient =
        TokenAccount { key: id(42), mint: alt_mint.key, owner: w.creator_wallet, amount: 0 };
    let mut create_ctx = CreateDonationV2 {
        program_id: w.program,
        donation_data_key: campaign_key,
        donation_protocol_key: w.protocol_key,
        donation_protocol: w.protocol,
        holding_wallet: holding,
        holding_wallet_owner: holding_owner,
        recipient,
        creator_data_key: w.creator_key,
        creator_data: w.creator,
        donation_mint: alt_mint,
        default_donation_mint: w.donation_mint,
        authorized_clmm_pool_key: pool_auth_key,
        authorized_clmm_pool: pool_auth,
        pool_state: pool,
        creator_wallet_address: w.creator_wallet,
    };
    let campaign = create_donation_v2(
        &mut create_ctx,
        1000,
        "QmAltCampaign".to_string(),
        w.now + 3600,
        holding_bump,
        w.now,
    )
    .unwrap();
    // the creator aggregate counts the target's default-mint value: at a
    // price of two default per alt, 1000 alt base units convert to 500
    assert_eq!(create_ctx.creator_data.total_amount_collecting, 500);
    assert_eq!(campaign.donation_mint, alt_mint.key);

    // donate one whole alt token: 10^9 base units, worth 500_000_000 default units
    let user_alt_wallet = TokenAccount {
        key: id(43),
        mint: alt_mint.key,
        owner: w.user_wallet,
        amount: 2_000_000_000,
    };
    let mut ctx = DonateV2 {
        program_id: w.program,
        donation_data_key: campaign_key,
        donation_data: campaign.clone(),
        contributor_data_key: w.contributor_key,
        contributor_data: w.contributor,
        donation_protocol_key: w.protocol_key,
        donation_protocol: w.protocol,
        user_token_wallet: user_alt_wallet,
        user_reward_token_wallet: w.user_reward_wallet,
        reward_treasury: w.treasury,
        reward_treasury_owner: w.treasury_owner,
        holding_wallet: holding,
        donation_mint: alt_mint,
        reward_mint: w.reward_mint,
        default_donation_mint: w.donation_mint,
        authorized_clmm_pool_key: pool_auth_key,
        authorized_clmm_pool: pool_auth,
        pool_state: pool,
        user_wallet: w.user_wallet,
    };
    donate_v2(&mut ctx, 1_000_000_000).unwrap();
    // the campaign accumulates raw alt units; the contributor the converted value
    assert_eq!(ctx.donation_data.total_amount_received, 1_000_000_000);
    assert_eq!(ctx.contributor_data.total_amount_donated, 500_000_000);
    assert_eq!(ctx.holding_wallet.amount, 1_000_000_000);
    assert_eq!(ctx.user_token_wallet.amount, 1_000_000_000);
    // the reward check compared 500_000_000 against the threshold of 100; the
    // treasury of 1_000_000 cannot cover it, so a hundredth is paid
    assert_eq!(ctx.contributor_data.total_amount_earned, 10_000);
    assert_eq!(ctx.reward_treasury.amount, 990_000);

    // withdrawal pays out raw alt units and credits the converted value
    let mut wctx = WithdrawFundsV2 {
        program_id: w.program,
        donation_data_key: campaign_key,
        donation_data: ctx.donation_data.clone(),
        creator_data_key: w.creator_key,
        creator_data: create_ctx.creator_data,
        donation_protocol_key: w.protocol_key,
        donation_protocol: w.protocol,
        holding_wallet: ctx.holding_wallet,
        holding_wallet_owner: holding_owner,
        recipient_token_wallet: recipient,
        donation_mint: alt_mint,
        default_donation_mint: w.donation_mint,
        authorized_clmm_pool_key: pool_auth_key,
        authorized_clmm_pool: pool_auth,
        pool_state: pool,
        payer: w.creator_wallet,
    };
    withdraw_funds_v2(&mut wctx, w.now + 10).unwrap();
    assert_eq!(wctx.recipient_token_wallet.amount, 1_000_000_000);
    assert_eq!(wctx.holding_wallet.amount, 0);
    assert!(wctx.donation_data.is_closed);
    assert_eq!(wctx.creator_data.total_amount_received, 500_000_000);
    assert_eq!(wctx.creator_data.donations_closed_count, 1);
}

#[test]
fn same_mint_campaign_rejected_by_cross_mint_path() {
    let mut w = setup(100, 1000, 1_000_000);
    let _ = &mut w;
    let deadline = w.now + 3600;
    let c = open_campaign(&mut w, 1000, deadline);
    // a pool that (absurdly) quotes the default mint against itself
    let pool = PoolState {
        key: id(50),
        amm_config: id(51),
        token_mint_0: w.donation_mint.key,
        token_mint_1: w.donation_mint.key,
        sqrt_price_x64: 1 << 64,
    };
    let (pool_auth_key, _) = donaproto::pda::find_authorized_pool_address(
        &w.protocol_key,
        &pool.key,
        &w.program,
    )
    .unwrap();
    let pool_auth = donaproto::states::AuthorizedClmmPool {
        pool_state: pool.key,
        program_id: id(52),
        mint: w.donation_mint.key,
        donation_protocol: w.protocol_key,
    };
    let (contributor_key, _) = find_contributor_address(&w.protocol_key, &w.user_wallet, &w.program).unwrap();
    let mut ctx = DonateV2 {
        program_id: w.program,
        donation_data_key: c.key,
        donation_data: c.data.clone(),
        contributor_data_key: contributor_key,
        contributor_data: w.contributor,
        donation_protocol_key: w.protocol_key,
        donation_protocol: w.protocol,
        user_token_wallet: w.user_token_wallet,
        user_reward_token_wallet: w.user_reward_wallet,
        reward_treasury: w.treasury,
        reward_treasury_owner: w.treasury_owner,
        holding_wallet: c.holding,
        donation_mint: w.donation_mint,
        reward_mint: w.reward_mint,
        default_donation_mint: w.donation_mint,
        authorized_clmm_pool_key: pool_auth_key,
        authorized_clmm_pool: pool_auth,
        pool_state: pool,
        user_wallet: w.user_wallet,
    };
    let r = donate_v2(&mut ctx, 100);
    assert_eq!(r, Err(CommandError::Custom(DonationError::InvalidDonationMint)));
}

#[test]
fn withdraw_at_deadline_with_nothing_received() {
    // a campaign exactly at its deadline with nothing received is
    // withdrawable: the deadline condition alone releases it, and the
    // transfer is worth zero
    let mut w = setup(100, 1000, 1_000_000);
    let deadline = w.now + 3600;
    let mut c = open_campaign(&mut w, 1000, deadline);
    run_withdraw(&mut w, &mut c, deadline).unwrap();
    assert!(c.data.is_closed);
    assert_eq!(c.recipient.amount, 0);
    assert_eq!(w.creator.total_amount_received, 0);
    assert_eq!(w.creator.donations_closed_count, 1);
    assert!(w.creator.donations_closed_count <= w.creator.donations_created_count);
}

#[test]
fn threshold_donation_earns_reward() {
    let mut w = setup(100, 1000, 1_000_000);
    let deadline = w.now + 3600;
    let mut c = open_campaign(&mut w, 1000, deadline);
    // exactly at the threshold the reward step runs
    run_donate(&mut w, &mut c, 100).unwrap();
    assert_eq!(w.contributor.total_amount_earned, 100);
}
