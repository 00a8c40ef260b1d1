//! Creation of a campaign in a non-default mint.
use vstd::prelude::*;
use vstd::utf8::encode_utf8;
use crate::errors::{CommandError, DonationError};
use crate::ids::AccountId;
use crate::instructions::create_donation::ipfs_hash_too_long;
use crate::pda::{
    derive_holding_owner, find_authorized_pool_address, find_creator_address,
    spec_authorized_pool_address, spec_creator_address, spec_holding_owner,
};
use crate::states::{
    creator_after_create, AuthorizedClmmPool, CreatorData, DonationData, DonationProtocolData,
    MAX_IPFS_HASH_LEN,
};
use crate::tokens::{Mint, PoolState, TokenAccount};
use crate::utils::{calculate_amount, spec_calculate_amount};

verus! {

/// The accounts a cross-mint campaign creation reads and writes.
pub struct CreateDonationV2 {
    /// This contract's own program id, for address re-derivation.
    pub program_id: AccountId,
    /// Address the new campaign record will live at.
    pub donation_data_key: AccountId,
    /// Address of the protocol record.
    pub donation_protocol_key: AccountId,
    /// The protocol configuration.
    pub donation_protocol: DonationProtocolData,
    /// The escrow token account donations will accumulate in.
    pub holding_wallet: TokenAccount,
    /// The signer owning the escrow.
    pub holding_wallet_owner: AccountId,
    /// The token account withdrawals will pay.
    pub recipient: TokenAccount,
    /// Address of the creator record.
    pub creator_data_key: AccountId,
    /// The creator's aggregate record.
    pub creator_data: CreatorData,
    /// The campaign's donation mint.
    pub donation_mint: Mint,
    /// The protocol's default donation mint.
    pub default_donation_mint: Mint,
    /// Address of the pool authorization record.
    pub authorized_clmm_pool_key: AccountId,
    /// The allow-listing of the pool consulted for the price.
    pub authorized_clmm_pool: AuthorizedClmmPool,
    /// The pool whose price values the campaign target.
    pub pool_state: PoolState,
    /// The creator, who signed the command.
    pub creator_wallet_address: AccountId,
}

/// Whether the protocol's default mint is the pool's first mint.
pub open spec fn create_v2_orientation(ctx: CreateDonationV2) -> bool {
    ctx.pool_state.token_mint_0 == ctx.donation_protocol.donation_mint
}

/// The campaign target valued in default-mint units at the pool price.
pub open spec fn create_v2_converted(ctx: CreateDonationV2, amount: u64) -> nat {
    spec_calculate_amount(
        ctx.default_donation_mint.decimals,
        ctx.donation_mint.decimals,
        amount,
        ctx.pool_state.sqrt_price_x64,
        create_v2_orientation(ctx),
    )
}

/// The plain account constraints of a cross-mint campaign creation.
pub open spec fn create_v2_accounts_ok(ctx: CreateDonationV2) -> bool {
    &&& ctx.donation_protocol.donation_mint == ctx.default_donation_mint.key
    &&& ctx.holding_wallet.owner == ctx.holding_wallet_owner
    &&& ctx.holding_wallet.mint == ctx.donation_mint.key
    &&& ctx.recipient.mint == ctx.donation_mint.key
    &&& ctx.creator_data.donation_protocol == ctx.donation_protocol_key
    &&& ctx.authorized_clmm_pool.mint == ctx.donation_mint.key
    &&& ctx.authorized_clmm_pool.donation_protocol == ctx.donation_protocol_key
    &&& ctx.authorized_clmm_pool.pool_state == ctx.pool_state.key
    &&& ((ctx.pool_state.token_mint_0 == ctx.donation_protocol.donation_mint
        && ctx.pool_state.token_mint_1 == ctx.donation_mint.key) || (ctx.pool_state.token_mint_1
        == ctx.donation_protocol.donation_mint && ctx.pool_state.token_mint_0
        == ctx.donation_mint.key))
}

/// The nonce re-derivations of a cross-mint campaign creation.
pub open spec fn create_v2_bumps_ok(ctx: CreateDonationV2, holding_bump: u8) -> bool {
    &&& spec_holding_owner(ctx.donation_data_key, holding_bump, ctx.program_id) == Some(
        ctx.holding_wallet_owner,
    )
    &&& match spec_creator_address(
        ctx.donation_protocol_key,
        ctx.creator_wallet_address,
        ctx.program_id,
    ) {
        Some(p) => p.0 == ctx.creator_data_key,
        None => false,
    }
    &&& match spec_authorized_pool_address(
        ctx.donation_protocol_key,
        ctx.pool_state.key,
        ctx.program_id,
    ) {
        Some(p) => p.0 == ctx.authorized_clmm_pool_key,
        None => false,
    }
}

/// The first reason a cross-mint campaign creation fails, or `None` when it
/// succeeds.
pub open spec fn create_v2_rejection(
    ctx: CreateDonationV2,
    amount: u64,
    ipfs_hash: String,
    ending_timestamp: u64,
    holding_bump: u8,
    now: u64,
) -> Option<CommandError> {
    if !create_v2_accounts_ok(ctx) {
        Some(CommandError::Constraint)
    } else if !create_v2_bumps_ok(ctx, holding_bump) {
        Some(CommandError::Custom(DonationError::InvalidBump))
    } else if ending_timestamp <= now {
        Some(CommandError::Custom(DonationError::InvalidEndingTimestamp))
    } else if encode_utf8(ipfs_hash@).len() > MAX_IPFS_HASH_LEN {
        Some(CommandError::Custom(DonationError::IpfsHashTooLong))
    } else if amount < ctx.donation_protocol.min_amount_to_collect {
        Some(CommandError::Custom(DonationError::DonationAmountTooLow))
    } else {
        None
    }
}

/// The campaign record a successful cross-mint creation writes. It stores
/// the raw target in the campaign's own mint.
pub open spec fn spec_new_campaign_v2(
    ctx: CreateDonationV2,
    amount: u64,
    ipfs_hash: String,
    ending_timestamp: u64,
    holding_bump: u8,
) -> DonationData {
    DonationData {
        amount_collecting: amount,
        total_amount_received: 0,
        ending_timestamp,
        is_closed: false,
        recipient: ctx.recipient.key,
        donation_protocol: ctx.donation_protocol_key,
        holding_wallet: ctx.holding_wallet.key,
        creator_data: ctx.creator_data_key,
        donation_mint: ctx.donation_mint.key,
        holding_bump,
        ipfs_hash,
    }
}

/// Creates a campaign in a non-default mint. The campaign stores its raw
/// target; the creator's aggregate grows by the target's default-mint value
/// at the authorized pool's current price.
pub fn create_donation_v2(
    ctx: &mut CreateDonationV2,
    amount: u64,
    ipfs_hash: String,
    ending_timestamp: u64,
    holding_bump: u8,
    now: u64,
) -> (r: Result<DonationData, CommandError>)
    requires
        create_v2_rejection(*old(ctx), amount, ipfs_hash, ending_timestamp, holding_bump, now)
            is None ==> old(ctx).pool_state.sqrt_price_x64 >= 1 && old(
            ctx,
        ).default_donation_mint.decimals <= 19 && old(ctx).donation_mint.decimals <= 19
            && create_v2_converted(*old(ctx), amount) <= u64::MAX && old(
            ctx,
        ).creator_data.total_amount_collecting + create_v2_converted(*old(ctx), amount)
            <= u64::MAX && old(ctx).creator_data.donations_created_count + 1 <= u64::MAX,
    ensures
        r is Ok <==> create_v2_rejection(
            *old(ctx),
            amount,
            ipfs_hash,
            ending_timestamp,
            holding_bump,
            now,
        ) is None,
        r matches Err(e) ==> Some(e) == create_v2_rejection(
            *old(ctx),
            amount,
            ipfs_hash,
            ending_timestamp,
            holding_bump,
            now,
        ),
        r is Err ==> *final(ctx) == *old(ctx),
        r matches Ok(dd) ==> dd == spec_new_campaign_v2(
            *old(ctx),
            amount,
            ipfs_hash,
            ending_timestamp,
            holding_bump,
        ) && dd.wf() && !dd.is_closed && dd.total_amount_received == 0 && *final(ctx)
            == (CreateDonationV2 {
            creator_data: creator_after_create(
                old(ctx).creator_data,
                create_v2_converted(*old(ctx), amount) as u64,
            ),
            ..*old(ctx)
        }),
{
    if ctx.donation_protocol.donation_mint != ctx.default_donation_mint.key
        || ctx.holding_wallet.owner != ctx.holding_wallet_owner || ctx.holding_wallet.mint
        != ctx.donation_mint.key || ctx.recipient.mint != ctx.donation_mint.key
        || ctx.creator_data.donation_protocol != ctx.donation_protocol_key
        || ctx.authorized_clmm_pool.mint != ctx.donation_mint.key
        || ctx.authorized_clmm_pool.donation_protocol != ctx.donation_protocol_key
        || ctx.authorized_clmm_pool.pool_state != ctx.pool_state.key {
        return Err(CommandError::Constraint);
    }
    let pair_forward = ctx.pool_state.token_mint_0 == ctx.donation_protocol.donation_mint
        && ctx.pool_state.token_mint_1 == ctx.donation_mint.key;
    let pair_backward = ctx.pool_state.token_mint_1 == ctx.donation_protocol.donation_mint
        && ctx.pool_state.token_mint_0 == ctx.donation_mint.key;
    if !pair_forward && !pair_backward {
        return Err(CommandError::Constraint);
    }
    let derived_owner = derive_holding_owner(&ctx.donation_data_key, holding_bump, &ctx.program_id);
    let owner_ok = match derived_owner {
        Some(a) => a == ctx.holding_wallet_owner,
        None => false,
    };
    let found_creator = find_creator_address(
        &ctx.donation_protocol_key,
        &ctx.creator_wallet_address,
        &ctx.program_id,
    );
    let creator_ok = match found_creator {
        Some(p) => p.0 == ctx.creator_data_key,
        None => false,
    };
    let found_pool = find_authorized_pool_address(
        &ctx.donation_protocol_key,
        &ctx.pool_state.key,
        &ctx.program_id,
    );
    let pool_ok = match found_pool {
        Some(p) => p.0 == ctx.authorized_clmm_pool_key,
        None => false,
    };
    if !owner_ok || !creator_ok || !pool_ok {
        return Err(CommandError::Custom(DonationError::InvalidBump));
    }
    if ending_timestamp <= now {
        return Err(CommandError::Custom(DonationError::InvalidEndingTimestamp));
    }
    if ipfs_hash_too_long(&ipfs_hash) {
        return Err(CommandError::Custom(DonationError::IpfsHashTooLong));
    }
    if amount < ctx.donation_protocol.min_amount_to_collect {
        return Err(CommandError::Custom(DonationError::DonationAmountTooLow));
    }
    let is_default_token_mint_0 = ctx.pool_state.token_mint_0
        == ctx.donation_protocol.donation_mint;
    let converted = calculate_amount(
        ctx.default_donation_mint.decimals,
        ctx.donation_mint.decimals,
        amount,
        ctx.pool_state.sqrt_price_x64,
        is_default_token_mint_0,
    );
    ctx.creator_data.total_amount_collecting = ctx.creator_data.total_amount_collecting
        + converted;
    ctx.creator_data.donations_created_count = ctx.creator_data.donations_created_count + 1;
    Ok(
        DonationData {
            amount_collecting: amount,
            total_amount_received: 0,
            ending_timestamp,
            is_closed: false,
            recipient: ctx.recipient.key,
            donation_protocol: ctx.donation_protocol_key,
            holding_wallet: ctx.holding_wallet.key,
            creator_data: ctx.creator_data_key,
            donation_mint: ctx.donation_mint.key,
            holding_bump,
            ipfs_hash,
        },
    )
}

} // verus!
