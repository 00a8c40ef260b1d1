//! Donation in the protocol's default mint.
use vstd::prelude::*;
use crate::errors::{CommandError, DonationError};
use crate::ids::AccountId;
use crate::pda::{
    derive_contributor_address, derive_treasury_owner, spec_contributor_address,
    spec_treasury_owner,
};
use crate::states::{
    campaign_after_donate, contributor_after_donate, spec_reward_amount, ContributorData,
    DonationData, DonationProtocolData,
};
use crate::tokens::{Mint, TokenAccount};

verus! {

/// The accounts a default-mint donation reads and writes.
pub struct Donate {
    /// This contract's own program id, for address re-derivation.
    pub program_id: AccountId,
    /// Address of the campaign record.
    pub donation_data_key: AccountId,
    /// The campaign donated to.
    pub donation_data: DonationData,
    /// Address of the contributor record.
    pub contributor_data_key: AccountId,
    /// The donor's aggregate record.
    pub contributor_data: ContributorData,
    /// Address of the protocol record.
    pub donation_protocol_key: AccountId,
    /// The protocol configuration.
    pub donation_protocol: DonationProtocolData,
    /// The donor's wallet in the donation mint.
    pub user_token_wallet: TokenAccount,
    /// The donor's wallet in the reward mint.
    pub user_reward_token_wallet: TokenAccount,
    /// The protocol's reward escrow.
    pub reward_treasury: TokenAccount,
    /// The signer owning the reward escrow.
    pub reward_treasury_owner: AccountId,
    /// The campaign's escrow in the donation mint.
    pub holding_wallet: TokenAccount,
    /// The donation mint.
    pub donation_mint: Mint,
    /// The reward mint.
    pub reward_mint: Mint,
    /// The donor, who signed the command.
    pub user_wallet: AccountId,
}

/// The plain account constraints of a default-mint donation.
pub open spec fn donate_accounts_ok(ctx: Donate) -> bool {
    &&& ctx.donation_data.donation_protocol == ctx.donation_protocol_key
    &&& ctx.donation_data.holding_wallet == ctx.holding_wallet.key
    &&& ctx.contributor_data.donation_protocol == ctx.donation_protocol_key
    &&& ctx.user_token_wallet.owner == ctx.user_wallet
    &&& ctx.user_token_wallet.mint == ctx.donation_mint.key
    &&& ctx.user_reward_token_wallet.owner == ctx.user_wallet
    &&& ctx.user_reward_token_wallet.mint == ctx.reward_mint.key
    &&& ctx.donation_protocol.treasury_mint == ctx.reward_mint.key
    &&& ctx.reward_treasury.key == ctx.donation_protocol.treasury
    &&& ctx.holding_wallet.mint == ctx.donation_mint.key
    &&& ctx.donation_protocol.donation_mint == ctx.donation_mint.key
}

/// The nonce re-derivations of a default-mint donation: the contributor
/// record and the treasury signer must sit at their derived addresses.
pub open spec fn donate_bumps_ok(ctx: Donate) -> bool {
    &&& spec_contributor_address(
        ctx.donation_protocol_key,
        ctx.user_wallet,
        ctx.contributor_data.bump,
        ctx.program_id,
    ) == Some(ctx.contributor_data_key)
    &&& spec_treasury_owner(
        ctx.donation_protocol_key,
        ctx.donation_protocol.treasury_owner_bump,
        ctx.program_id,
    ) == Some(ctx.reward_treasury_owner)
}

/// Whether the reward step runs: the donated value reaches the threshold and
/// the capped reward is not zero.
pub open spec fn donate_reward_fires(ctx: Donate, converted: u64) -> bool {
    converted >= ctx.donation_protocol.min_amount_to_earn && spec_reward_amount(
        converted,
        ctx.reward_treasury.amount,
    ) > 0
}

/// The reward this donation pays out (zero when the step does not run).
pub open spec fn donate_effective_reward(ctx: Donate, converted: u64) -> u64 {
    if donate_reward_fires(ctx, converted) {
        spec_reward_amount(converted, ctx.reward_treasury.amount)
    } else {
        0
    }
}

/// The first reason a default-mint donation fails, or `None` when it
/// succeeds: account constraints, then nonce checks, then the campaign
/// state, then the transfers the ledger would refuse.
pub open spec fn donate_rejection(ctx: Donate, amount: u64) -> Option<CommandError> {
    if !donate_accounts_ok(ctx) {
        Some(CommandError::Constraint)
    } else if !donate_bumps_ok(ctx) {
        Some(CommandError::Custom(DonationError::InvalidBump))
    } else if ctx.donation_data.is_closed {
        Some(CommandError::Custom(DonationError::DonationClosed))
    } else if amount == 0 {
        Some(CommandError::Custom(DonationError::DonationAmountZero))
    } else if ctx.donation_data.donation_mint != ctx.donation_protocol.donation_mint {
        Some(CommandError::Custom(DonationError::InvalidDonationMint))
    } else if ctx.user_token_wallet.amount < amount {
        Some(CommandError::Transfer)
    } else if ctx.holding_wallet.amount + amount > u64::MAX {
        Some(CommandError::Transfer)
    } else if donate_reward_fires(ctx, amount) && ctx.user_reward_token_wallet.amount
        + donate_effective_reward(ctx, amount) > u64::MAX {
        Some(CommandError::Transfer)
    } else {
        None
    }
}

/// Donates `amount` of the default mint to an open campaign: moves the
/// tokens into the campaign escrow, updates the campaign and contributor
/// aggregates, and pays a reward from the treasury when the amount reaches
/// the protocol threshold. Fails without changing anything otherwise.
pub fn donate(ctx: &mut Donate, amount: u64) -> (r: Result<(), CommandError>)
    requires
        donate_rejection(*old(ctx), amount) is None ==> old(ctx).donation_data.total_amount_received
            + amount <= u64::MAX && old(ctx).contributor_data.total_amount_donated + amount
            <= u64::MAX && old(ctx).contributor_data.donations_count + 1 <= u64::MAX && old(
            ctx,
        ).contributor_data.total_amount_earned + donate_effective_reward(*old(ctx), amount)
            <= u64::MAX,
    ensures
        r is Ok <==> donate_rejection(*old(ctx), amount) is None,
        r matches Err(e) ==> Some(e) == donate_rejection(*old(ctx), amount),
        r is Err ==> *final(ctx) == *old(ctx),
        r is Ok ==> *final(ctx) == (Donate {
            donation_data: campaign_after_donate(old(ctx).donation_data, amount),
            contributor_data: contributor_after_donate(
                old(ctx).contributor_data,
                amount,
                donate_effective_reward(*old(ctx), amount),
            ),
            user_token_wallet: (TokenAccount {
                amount: (old(ctx).user_token_wallet.amount - amount) as u64,
                ..old(ctx).user_token_wallet
            }),
            holding_wallet: (TokenAccount {
                amount: (old(ctx).holding_wallet.amount + amount) as u64,
                ..old(ctx).holding_wallet
            }),
            reward_treasury: (TokenAccount {
                amount: (old(ctx).reward_treasury.amount - donate_effective_reward(
                    *old(ctx),
                    amount,
                )) as u64,
                ..old(ctx).reward_treasury
            }),
            user_reward_token_wallet: (TokenAccount {
                amount: (old(ctx).user_reward_token_wallet.amount + donate_effective_reward(
                    *old(ctx),
                    amount,
                )) as u64,
                ..old(ctx).user_reward_token_wallet
            }),
            ..*old(ctx)
        }),
        amount < old(ctx).donation_protocol.min_amount_to_earn
            ==> final(ctx).contributor_data.total_amount_earned == old(
            ctx,
        ).contributor_data.total_amount_earned,
{
    if ctx.donation_data.donation_protocol != ctx.donation_protocol_key
        || ctx.donation_data.holding_wallet != ctx.holding_wallet.key
        || ctx.contributor_data.donation_protocol != ctx.donation_protocol_key
        || ctx.user_token_wallet.owner != ctx.user_wallet || ctx.user_token_wallet.mint
        != ctx.donation_mint.key || ctx.user_reward_token_wallet.owner != ctx.user_wallet
        || ctx.user_reward_token_wallet.mint != ctx.reward_mint.key
        || ctx.donation_protocol.treasury_mint != ctx.reward_mint.key || ctx.reward_treasury.key
        != ctx.donation_protocol.treasury || ctx.holding_wallet.mint != ctx.donation_mint.key
        || ctx.donation_protocol.donation_mint != ctx.donation_mint.key {
        return Err(CommandError::Constraint);
    }
    let derived_contributor = derive_contributor_address(
        &ctx.donation_protocol_key,
        &ctx.user_wallet,
        ctx.contributor_data.bump,
        &ctx.program_id,
    );
    let contributor_ok = match derived_contributor {
        Some(a) => a == ctx.contributor_data_key,
        None => false,
    };
    let derived_treasury = derive_treasury_owner(
        &ctx.donation_protocol_key,
        ctx.donation_protocol.treasury_owner_bump,
        &ctx.program_id,
    );
    let treasury_ok = match derived_treasury {
        Some(a) => a == ctx.reward_treasury_owner,
        None => false,
    };
    if !contributor_ok || !treasury_ok {
        return Err(CommandError::Custom(DonationError::InvalidBump));
    }
    if ctx.donation_data.is_closed {
        return Err(CommandError::Custom(DonationError::DonationClosed));
    }
    if amount == 0 {
        return Err(CommandError::Custom(DonationError::DonationAmountZero));
    }
    if ctx.donation_data.donation_mint != ctx.donation_protocol.donation_mint {
        return Err(CommandError::Custom(DonationError::InvalidDonationMint));
    }
    if ctx.user_token_wallet.amount < amount {
        return Err(CommandError::Transfer);
    }
    if ctx.holding_wallet.amount > u64::MAX - amount {
        return Err(CommandError::Transfer);
    }
    let mut reward: u64 = 0;
    if amount >= ctx.donation_protocol.min_amount_to_earn {
        let treasury_balance = ctx.reward_treasury.amount;
        reward = if amount > treasury_balance {
            treasury_balance / 100
        } else {
            amount
        };
        if reward > 0 && ctx.user_reward_token_wallet.amount > u64::MAX - reward {
            return Err(CommandError::Transfer);
        }
    }
    proof {
        assert(donate_rejection(*old(ctx), amount) is None);
        assert(reward == donate_effective_reward(*old(ctx), amount));
        assert(reward <= ctx.reward_treasury.amount) by {
            if amount > ctx.reward_treasury.amount {
                assert(ctx.reward_treasury.amount / 100 <= ctx.reward_treasury.amount);
            }
        }
    }
    ctx.user_token_wallet.amount = ctx.user_token_wallet.amount - amount;
    ctx.holding_wallet.amount = ctx.holding_wallet.amount + amount;
    ctx.donation_data.total_amount_received = ctx.donation_data.total_amount_received + amount;
    ctx.contributor_data.total_amount_donated = ctx.contributor_data.total_amount_donated + amount;
    ctx.contributor_data.donations_count = ctx.contributor_data.donations_count + 1;
    if reward > 0 {
        ctx.reward_treasury.amount = ctx.reward_treasury.amount - reward;
        ctx.user_reward_token_wallet.amount = ctx.user_reward_token_wallet.amount + reward;
        ctx.contributor_data.total_amount_earned = ctx.contributor_data.total_amount_earned
            + reward;
    }
    Ok(())
}

} // verus!
