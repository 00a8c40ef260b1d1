//! Withdrawal of a cross-mint campaign's escrow.
use vstd::prelude::*;
use crate::errors::{CommandError, DonationError};
use crate::ids::AccountId;
use crate::pda::{
    derive_holding_owner, find_authorized_pool_address, spec_authorized_pool_address,
    spec_holding_owner,
};
use crate::states::{
    campaign_after_withdraw, creator_after_withdraw, AuthorizedClmmPool, CreatorData,
    DonationData, DonationProtocolData,
};
use crate::tokens::{Mint, PoolState, TokenAccount};
use crate::utils::{calculate_amount, spec_calculate_amount};
use crate::instructions::withdraw_funds::withdraw_due;

verus! {

/// The accounts a cross-mint withdrawal reads and writes.
pub struct WithdrawFundsV2 {
    /// This contract's own program id, for address re-derivation.
    pub program_id: AccountId,
    /// Address of the campaign record.
    pub donation_data_key: AccountId,
    /// The campaign withdrawn from.
    pub donation_data: DonationData,
    /// Address of the creator record.
    pub creator_data_key: AccountId,
    /// The campaign creator's aggregate record.
    pub creator_data: CreatorData,
    /// Address of the protocol record.
    pub donation_protocol_key: AccountId,
    /// The protocol configuration.
    pub donation_protocol: DonationProtocolData,
    /// The campaign's escrow in the campaign's mint.
    pub holding_wallet: TokenAccount,
    /// The signer owning the escrow.
    pub holding_wallet_owner: AccountId,
    /// The wallet paid out.
    pub recipient_token_wallet: TokenAccount,
    /// The campaign's mint.
    pub donation_mint: Mint,
    /// The protocol's default donation mint.
    pub default_donation_mint: Mint,
    /// Address of the pool authorization record.
    pub authorized_clmm_pool_key: AccountId,
    /// The allow-listing of the pool consulted for the price.
    pub authorized_clmm_pool: AuthorizedClmmPool,
    /// The pool whose price values the withdrawal.
    pub pool_state: PoolState,
    /// The caller, who signed the command.
    pub payer: AccountId,
}

/// Whether the protocol's default mint is the pool's first mint.
pub open spec fn withdraw_v2_orientation(ctx: WithdrawFundsV2) -> bool {
    ctx.pool_state.token_mint_0 == ctx.donation_protocol.donation_mint
}

/// The campaign's received total valued in default-mint units.
pub open spec fn withdraw_v2_converted(ctx: WithdrawFundsV2) -> nat {
    spec_calculate_amount(
        ctx.default_donation_mint.decimals,
        ctx.donation_mint.decimals,
        ctx.donation_data.total_amount_received,
        ctx.pool_state.sqrt_price_x64,
        withdraw_v2_orientation(ctx),
    )
}

/// The plain account constraints of a cross-mint withdrawal.
pub open spec fn withdraw_v2_accounts_ok(ctx: WithdrawFundsV2) -> bool {
    &&& ctx.donation_data.donation_protocol == ctx.donation_protocol_key
    &&& ctx.donation_data.holding_wallet == ctx.holding_wallet.key
    &&& ctx.donation_data.creator_data == ctx.creator_data_key
    &&& ctx.creator_data.donation_protocol == ctx.donation_protocol_key
    &&& ctx.donation_protocol.donation_mint == ctx.default_donation_mint.key
    &&& ctx.holding_wallet.mint == ctx.donation_mint.key
    &&& ctx.holding_wallet.owner == ctx.holding_wallet_owner
    &&& ctx.recipient_token_wallet.owner == ctx.payer
    &&& ctx.recipient_token_wallet.mint == ctx.donation_mint.key
    &&& ctx.authorized_clmm_pool.mint == ctx.donation_mint.key
    &&& ctx.authorized_clmm_pool.donation_protocol == ctx.donation_protocol_key
    &&& ctx.authorized_clmm_pool.pool_state == ctx.pool_state.key
    &&& ((ctx.pool_state.token_mint_0 == ctx.donation_protocol.donation_mint
        && ctx.pool_state.token_mint_1 == ctx.donation_mint.key) || (ctx.pool_state.token_mint_1
        == ctx.donation_protocol.donation_mint && ctx.pool_state.token_mint_0
        == ctx.donation_mint.key))
}

/// The nonce re-derivations of a cross-mint withdrawal.
pub open spec fn withdraw_v2_bumps_ok(ctx: WithdrawFundsV2) -> bool {
    &&& spec_holding_owner(ctx.donation_data_key, ctx.donation_data.holding_bump, ctx.program_id)
        == Some(ctx.holding_wallet_owner)
    &&& match spec_authorized_pool_address(
        ctx.donation_protocol_key,
        ctx.pool_state.key,
        ctx.program_id,
    ) {
        Some(p) => p.0 == ctx.authorized_clmm_pool_key,
        None => false,
    }
}

/// The validations that run before the price is consulted.
pub open spec fn withdraw_v2_validated(ctx: WithdrawFundsV2, now: u64) -> bool {
    &&& withdraw_v2_accounts_ok(ctx)
    &&& withdraw_v2_bumps_ok(ctx)
    &&& !ctx.donation_data.is_closed
    &&& withdraw_due(ctx.donation_data, now)
    &&& ctx.donation_protocol.donation_mint != ctx.donation_mint.key
}

/// The first reason a cross-mint withdrawal fails, or `None` when it
/// succeeds.
pub open spec fn withdraw_v2_rejection(ctx: WithdrawFundsV2, now: u64) -> Option<CommandError> {
    if !withdraw_v2_accounts_ok(ctx) {
        Some(CommandError::Constraint)
    } else if !withdraw_v2_bumps_ok(ctx) {
        Some(CommandError::Custom(DonationError::InvalidBump))
    } else if ctx.donation_data.is_closed {
        Some(CommandError::Custom(DonationError::DonationClosed))
    } else if !withdraw_due(ctx.donation_data, now) {
        Some(CommandError::Custom(DonationError::EndingRequirementsNotMet))
    } else if ctx.donation_protocol.donation_mint == ctx.donation_mint.key {
        Some(CommandError::Custom(DonationError::InvalidDonationMint))
    } else if ctx.holding_wallet.amount < ctx.donation_data.total_amount_received {
        Some(CommandError::Transfer)
    } else if ctx.recipient_token_wallet.amount + ctx.donation_data.total_amount_received
        > u64::MAX {
        Some(CommandError::Transfer)
    } else {
        None
    }
}

/// Withdraws everything a cross-mint campaign has received: the escrow is
/// paid out in the campaign's own mint, while the creator's aggregate grows
/// by the total's default-mint value at the authorized pool's current price.
pub fn withdraw_funds_v2(ctx: &mut WithdrawFundsV2, now: u64) -> (r: Result<(), CommandError>)
    requires
        withdraw_v2_validated(*old(ctx), now) ==> old(ctx).pool_state.sqrt_price_x64 >= 1 && old(
            ctx,
        ).default_donation_mint.decimals <= 19 && old(ctx).donation_mint.decimals <= 19
            && withdraw_v2_converted(*old(ctx)) <= u64::MAX,
        withdraw_v2_rejection(*old(ctx), now) is None ==> old(
            ctx,
        ).creator_data.total_amount_received + withdraw_v2_converted(*old(ctx)) <= u64::MAX && old(
            ctx,
        ).creator_data.donations_closed_count + 1 <= u64::MAX,
    ensures
        r is Ok <==> withdraw_v2_rejection(*old(ctx), now) is None,
        r matches Err(e) ==> Some(e) == withdraw_v2_rejection(*old(ctx), now),
        r is Err ==> *final(ctx) == *old(ctx),
        r is Ok ==> *final(ctx) == (WithdrawFundsV2 {
            donation_data: campaign_after_withdraw(old(ctx).donation_data),
            creator_data: creator_after_withdraw(
                old(ctx).creator_data,
                withdraw_v2_converted(*old(ctx)) as u64,
            ),
            holding_wallet: (TokenAccount {
                amount: (old(ctx).holding_wallet.amount - old(
                    ctx,
                ).donation_data.total_amount_received) as u64,
                ..old(ctx).holding_wallet
            }),
            recipient_token_wallet: (TokenAccount {
                amount: (old(ctx).recipient_token_wallet.amount + old(
                    ctx,
                ).donation_data.total_amount_received) as u64,
                ..old(ctx).recipient_token_wallet
            }),
            ..*old(ctx)
        }),
        now < old(ctx).donation_data.ending_timestamp && old(
            ctx,
        ).donation_data.total_amount_received < old(ctx).donation_data.amount_collecting ==> r
            is Err,
        r is Ok ==> final(ctx).donation_data.is_closed,
{
    if ctx.donation_data.donation_protocol != ctx.donation_protocol_key
        || ctx.donation_data.holding_wallet != ctx.holding_wallet.key
        || ctx.donation_data.creator_data != ctx.creator_data_key
        || ctx.creator_data.donation_protocol != ctx.donation_protocol_key
        || ctx.donation_protocol.donation_mint != ctx.default_donation_mint.key
        || ctx.holding_wallet.mint != ctx.donation_mint.key || ctx.holding_wallet.owner
        != ctx.holding_wallet_owner || ctx.recipient_token_wallet.owner != ctx.payer
        || ctx.recipient_token_wallet.mint != ctx.donation_mint.key
        || ctx.authorized_clmm_pool.mint != ctx.donation_mint.key
        || ctx.authorized_clmm_pool.donation_protocol != ctx.donation_protocol_key
        || ctx.authorized_clmm_pool.pool_state != ctx.pool_state.key {
        return Err(CommandError::Constraint);
    }
    let pair_forward = ctx.pool_state.token_mint_0 == ctx.donation_protocol.donation_mint
        && ctx.pool_state.token_mint_1 == ctx.donation_mint.key;
    let pair_backward = ctx.pool_state.token_mint_1 == ctx.donation_protocol.donation_mint
        && ctx.pool_state.token_mint_0 == ctx.donation_mint.key;
    if !pair_forward && !pair_backward {
        return Err(CommandError::Constraint);
    }
    let derived_owner = derive_holding_owner(
        &ctx.donation_data_key,
        ctx.donation_data.holding_bump,
        &ctx.program_id,
    );
    let owner_ok = match derived_owner {
        Some(a) => a == ctx.holding_wallet_owner,
        None => false,
    };
    let found_pool = find_authorized_pool_address(
        &ctx.donation_protocol_key,
        &ctx.pool_state.key,
        &ctx.program_id,
    );
    let pool_ok = match found_pool {
        Some(p) => p.0 == ctx.authorized_clmm_pool_key,
        None => false,
    };
    if !owner_ok || !pool_ok {
        return Err(CommandError::Custom(DonationError::InvalidBump));
    }
    if ctx.donation_data.is_closed {
        return Err(CommandError::Custom(DonationError::DonationClosed));
    }
    if ctx.donation_data.ending_timestamp > now && ctx.donation_data.total_amount_received
        < ctx.donation_data.amount_collecting {
        return Err(CommandError::Custom(DonationError::EndingRequirementsNotMet));
    }
    if ctx.donation_protocol.donation_mint == ctx.donation_mint.key {
        return Err(CommandError::Custom(DonationError::InvalidDonationMint));
    }
    let total = ctx.donation_data.total_amount_received;
    if ctx.holding_wallet.amount < total {
        return Err(CommandError::Transfer);
    }
    if ctx.recipient_token_wallet.amount > u64::MAX - total {
        return Err(CommandError::Transfer);
    }
    let is_default_token_mint_0 = ctx.pool_state.token_mint_0
        == ctx.donation_protocol.donation_mint;
    let converted = calculate_amount(
        ctx.default_donation_mint.decimals,
        ctx.donation_mint.decimals,
        total,
        ctx.pool_state.sqrt_price_x64,
        is_default_token_mint_0,
    );
    ctx.holding_wallet.amount = ctx.holding_wallet.amount - total;
    ctx.recipient_token_wallet.amount = ctx.recipient_token_wallet.amount + total;
    ctx.creator_data.total_amount_received = ctx.creator_data.total_amount_received + converted;
    ctx.creator_data.donations_closed_count = ctx.creator_data.donations_closed_count + 1;
    ctx.donation_data.is_closed = true;
    Ok(())
}

} // verus!
