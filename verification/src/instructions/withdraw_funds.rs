//! Withdrawal of a default-mint campaign's escrow.
use vstd::prelude::*;
use crate::errors::{CommandError, DonationError};
use crate::ids::AccountId;
use crate::pda::{derive_holding_owner, spec_holding_owner};
use crate::states::{
    campaign_after_withdraw, creator_after_withdraw, CreatorData, DonationData,
    DonationProtocolData,
};
use crate::tokens::{Mint, TokenAccount};

verus! {

/// The accounts a default-mint withdrawal reads and writes.
pub struct WithdrawFunds {
    /// This contract's own program id, for address re-derivation.
    pub program_id: AccountId,
    /// Address of the campaign record.
    pub donation_data_key: AccountId,
    /// The campaign withdrawn from.
    pub donation_data: DonationData,
    /// Address of the creator record.
    pub creator_data_key: AccountId,
    /// The campaign creator's aggregate record.
    pub creator_data: CreatorData,
    /// Address of the protocol record.
    pub donation_protocol_key: AccountId,
    /// The protocol configuration.
    pub donation_protocol: DonationProtocolData,
    /// The campaign's escrow in the donation mint.
    pub holding_wallet: TokenAccount,
    /// The signer owning the escrow.
    pub holding_wallet_owner: AccountId,
    /// The wallet paid out.
    pub recipient_token_wallet: TokenAccount,
    /// The donation mint.
    pub donation_mint: Mint,
    /// The caller, who signed the command.
    pub payer: AccountId,
}

/// The plain account constraints of a default-mint withdrawal.
pub open spec fn withdraw_accounts_ok(ctx: WithdrawFunds) -> bool {
    &&& ctx.donation_data.donation_protocol == ctx.donation_protocol_key
    &&& ctx.donation_data.holding_wallet == ctx.holding_wallet.key
    &&& ctx.donation_data.creator_data == ctx.creator_data_key
    &&& ctx.creator_data.donation_protocol == ctx.donation_protocol_key
    &&& ctx.holding_wallet.mint == ctx.donation_mint.key
    &&& ctx.holding_wallet.owner == ctx.holding_wallet_owner
    &&& ctx.recipient_token_wallet.owner == ctx.payer
    &&& ctx.recipient_token_wallet.mint == ctx.donation_mint.key
    &&& ctx.donation_protocol.donation_mint == ctx.donation_mint.key
}

/// The nonce re-derivation of a withdrawal: the escrow signer must sit at
/// the address derived from the campaign and its stored nonce.
pub open spec fn withdraw_bumps_ok(ctx: WithdrawFunds) -> bool {
    spec_holding_owner(ctx.donation_data_key, ctx.donation_data.holding_bump, ctx.program_id)
        == Some(ctx.holding_wallet_owner)
}

/// Whether the campaign may be withdrawn now: the deadline has passed or the
/// target is reached.
pub open spec fn withdraw_due(c: DonationData, now: u64) -> bool {
    !(c.ending_timestamp > now && c.total_amount_received < c.amount_collecting)
}

/// The first reason a default-mint withdrawal fails, or `None` when it
/// succeeds.
pub open spec fn withdraw_rejection(ctx: WithdrawFunds, now: u64) -> Option<CommandError> {
    if !withdraw_accounts_ok(ctx) {
        Some(CommandError::Constraint)
    } else if !withdraw_bumps_ok(ctx) {
        Some(CommandError::Custom(DonationError::InvalidBump))
    } else if ctx.donation_data.is_closed {
        Some(CommandError::Custom(DonationError::DonationClosed))
    } else if !withdraw_due(ctx.donation_data, now) {
        Some(CommandError::Custom(DonationError::EndingRequirementsNotMet))
    } else if ctx.donation_data.donation_mint != ctx.donation_protocol.donation_mint {
        Some(CommandError::Custom(DonationError::InvalidDonationMint))
    } else if ctx.holding_wallet.amount < ctx.donation_data.total_amount_received {
        Some(CommandError::Transfer)
    } else if ctx.recipient_token_wallet.amount + ctx.donation_data.total_amount_received
        > u64::MAX {
        Some(CommandError::Transfer)
    } else {
        None
    }
}

/// Withdraws everything a campaign has received: moves the escrowed tokens
/// to the recipient, closes the campaign once and forever, and updates the
/// creator's aggregates. Legal as soon as the deadline has passed or the
/// target is reached; fails without changing anything otherwise.
pub fn withdraw_funds(ctx: &mut WithdrawFunds, now: u64) -> (r: Result<(), CommandError>)
    requires
        withdraw_rejection(*old(ctx), now) is None ==> old(ctx).creator_data.total_amount_received
            + old(ctx).donation_data.total_amount_received <= u64::MAX && old(
            ctx,
        ).creator_data.donations_closed_count + 1 <= u64::MAX,
    ensures
        r is Ok <==> withdraw_rejection(*old(ctx), now) is None,
        r matches Err(e) ==> Some(e) == withdraw_rejection(*old(ctx), now),
        r is Err ==> *final(ctx) == *old(ctx),
        r is Ok ==> *final(ctx) == (WithdrawFunds {
            donation_data: campaign_after_withdraw(old(ctx).donation_data),
            creator_data: creator_after_withdraw(
                old(ctx).creator_data,
                old(ctx).donation_data.total_amount_received,
            ),
            holding_wallet: (TokenAccount {
                amount: (old(ctx).holding_wallet.amount - old(
                    ctx,
                ).donation_data.total_amount_received) as u64,
                ..old(ctx).holding_wallet
            }),
            recipient_token_wallet: (TokenAccount {
                amount: (old(ctx).recipient_token_wallet.amount + old(
                    ctx,
                ).donation_data.total_amount_received) as u64,
                ..old(ctx).recipient_token_wallet
            }),
            ..*old(ctx)
        }),
        now < old(ctx).donation_data.ending_timestamp && old(
            ctx,
        ).donation_data.total_amount_received < old(ctx).donation_data.amount_collecting ==> r
            is Err,
        r is Ok ==> final(ctx).donation_data.is_closed,
{
    if ctx.donation_data.donation_protocol != ctx.donation_protocol_key
        || ctx.donation_data.holding_wallet != ctx.holding_wallet.key
        || ctx.donation_data.creator_data != ctx.creator_data_key
        || ctx.creator_data.donation_protocol != ctx.donation_protocol_key
        || ctx.holding_wallet.mint != ctx.donation_mint.key || ctx.holding_wallet.owner
        != ctx.holding_wallet_owner || ctx.recipient_token_wallet.owner != ctx.payer
        || ctx.recipient_token_wallet.mint != ctx.donation_mint.key
        || ctx.donation_protocol.donation_mint != ctx.donation_mint.key {
        return Err(CommandError::Constraint);
    }
    let derived_owner = derive_holding_owner(
        &ctx.donation_data_key,
        ctx.donation_data.holding_bump,
        &ctx.program_id,
    );
    let owner_ok = match derived_owner {
        Some(a) => a == ctx.holding_wallet_owner,
        None => false,
    };
    if !owner_ok {
        return Err(CommandError::Custom(DonationError::InvalidBump));
    }
    if ctx.donation_data.is_closed {
        return Err(CommandError::Custom(DonationError::DonationClosed));
    }
    if ctx.donation_data.ending_timestamp > now && ctx.donation_data.total_amount_received
        < ctx.donation_data.amount_collecting {
        return Err(CommandError::Custom(DonationError::EndingRequirementsNotMet));
    }
    if ctx.donation_data.donation_mint != ctx.donation_protocol.donation_mint {
        return Err(CommandError::Custom(DonationError::InvalidDonationMint));
    }
    let total = ctx.donation_data.total_amount_received;
    if ctx.holding_wallet.amount < total {
        return Err(CommandError::Transfer);
    }
    if ctx.recipient_token_wallet.amount > u64::MAX - total {
        return Err(CommandError::Transfer);
    }
    ctx.holding_wallet.amount = ctx.holding_wallet.amount - total;
    ctx.recipient_token_wallet.amount = ctx.recipient_token_wallet.amount + total;
    ctx.creator_data.total_amount_received = ctx.creator_data.total_amount_received + total;
    ctx.creator_data.donations_closed_count = ctx.creator_data.donations_closed_count + 1;
    ctx.donation_data.is_closed = true;
    Ok(())
}

} // verus!
