//! Donation in a non-default mint, valued through an authorized pool.
use vstd::prelude::*;
use crate::errors::{CommandError, DonationError};
use crate::ids::AccountId;
use crate::pda::{
    derive_contributor_address, derive_treasury_owner, find_authorized_pool_address,
    spec_authorized_pool_address, spec_contributor_address, spec_treasury_owner,
};
use crate::states::{
    campaign_after_donate, contributor_after_donate, AuthorizedClmmPool, ContributorData,
    DonationData, DonationProtocolData,
};
use crate::tokens::{Mint, PoolState, TokenAccount};
use crate::utils::{calculate_amount, spec_calculate_amount};

verus! {

/// The accounts a cross-mint donation reads and writes.
pub struct DonateV2 {
    /// This contract's own program id, for address re-derivation.
    pub program_id: AccountId,
    /// Address of the campaign record.
    pub donation_data_key: AccountId,
    /// The campaign donated to.
    pub donation_data: DonationData,
    /// Address of the contributor record.
    pub contributor_data_key: AccountId,
    /// The donor's aggregate record.
    pub contributor_data: ContributorData,
    /// Address of the protocol record.
    pub donation_protocol_key: AccountId,
    /// The protocol configuration.
    pub donation_protocol: DonationProtocolData,
    /// The donor's wallet in the campaign's mint.
    pub user_token_wallet: TokenAccount,
    /// The donor's wallet in the reward mint.
    pub user_reward_token_wallet: TokenAccount,
    /// The protocol's reward escrow.
    pub reward_treasury: TokenAccount,
    /// The signer owning the reward escrow.
    pub reward_treasury_owner: AccountId,
    /// The campaign's escrow in the campaign's mint.
    pub holding_wallet: TokenAccount,
    /// The campaign's mint.
    pub donation_mint: Mint,
    /// The reward mint.
    pub reward_mint: Mint,
    /// The protocol's default donation mint.
    pub default_donation_mint: Mint,
    /// Address of the pool authorization record.
    pub authorized_clmm_pool_key: AccountId,
    /// The allow-listing of the pool consulted for the price.
    pub authorized_clmm_pool: AuthorizedClmmPool,
    /// The pool whose price values this donation.
    pub pool_state: PoolState,
    /// The donor, who signed the command.
    pub user_wallet: AccountId,
}

/// Whether the protocol's default mint is the pool's first mint; this
/// orients the price.
pub open spec fn donate_v2_orientation(ctx: DonateV2) -> bool {
    ctx.pool_state.token_mint_0 == ctx.donation_protocol.donation_mint
}

/// The donated amount valued in default-mint units at the pool price.
pub open spec fn donate_v2_converted(ctx: DonateV2, amount: u64) -> nat {
    spec_calculate_amount(
        ctx.default_donation_mint.decimals,
        ctx.donation_mint.decimals,
        amount,
        ctx.pool_state.sqrt_price_x64,
        donate_v2_orientation(ctx),
    )
}

/// The plain account constraints of a cross-mint donation.
pub open spec fn donate_v2_accounts_ok(ctx: DonateV2) -> bool {
    &&& ctx.donation_data.donation_protocol == ctx.donation_protocol_key
    &&& ctx.donation_data.holding_wallet == ctx.holding_wallet.key
    &&& ctx.contributor_data.donation_protocol == ctx.donation_protocol_key
    &&& ctx.donation_protocol.donation_mint == ctx.default_donation_mint.key
    &&& ctx.user_token_wallet.owner == ctx.user_wallet
    &&& ctx.user_token_wallet.mint == ctx.donation_mint.key
    &&& ctx.user_reward_token_wallet.owner == ctx.user_wallet
    &&& ctx.user_reward_token_wallet.mint == ctx.reward_mint.key
    &&& ctx.donation_protocol.treasury_mint == ctx.reward_mint.key
    &&& ctx.reward_treasury.key == ctx.donation_protocol.treasury
    &&& ctx.holding_wallet.mint == ctx.donation_mint.key
    &&& ctx.authorized_clmm_pool.mint == ctx.donation_mint.key
    &&& ctx.authorized_clmm_pool.donation_protocol == ctx.donation_protocol_key
    &&& ctx.authorized_clmm_pool.pool_state == ctx.pool_state.key
    &&& ((ctx.pool_state.token_mint_0 == ctx.donation_protocol.donation_mint
        && ctx.pool_state.token_mint_1 == ctx.donation_mint.key) || (ctx.pool_state.token_mint_1
        == ctx.donation_protocol.donation_mint && ctx.pool_state.token_mint_0
        == ctx.donation_mint.key))
}

/// The nonce re-derivations of a cross-mint donation: contributor record,
/// treasury signer, and the canonical address of the pool authorization.
pub open spec fn donate_v2_bumps_ok(ctx: DonateV2) -> bool {
    &&& spec_contributor_address(
        ctx.donation_protocol_key,
        ctx.user_wallet,
        ctx.contributor_data.bump,
        ctx.program_id,
    ) == Some(ctx.contributor_data_key)
    &&& spec_treasury_owner(
        ctx.donation_protocol_key,
        ctx.donation_protocol.treasury_owner_bump,
        ctx.program_id,
    ) == Some(ctx.reward_treasury_owner)
    &&& match spec_authorized_pool_address(
        ctx.donation_protocol_key,
        ctx.pool_state.key,
        ctx.program_id,
    ) {
        Some(p) => p.0 == ctx.authorized_clmm_pool_key,
        None => false,
    }
}

/// The validations that run before the price is consulted.
pub open spec fn donate_v2_validated(ctx: DonateV2, amount: u64) -> bool {
    &&& donate_v2_accounts_ok(ctx)
    &&& donate_v2_bumps_ok(ctx)
    &&& !ctx.donation_data.is_closed
    &&& amount != 0
    &&& ctx.donation_protocol.donation_mint != ctx.donation_mint.key
}

/// Whether the reward step runs, judged on the converted value.
pub open spec fn donate_v2_reward_fires(ctx: DonateV2, converted: u64) -> bool {
    converted >= ctx.donation_protocol.min_amount_to_earn && crate::states::spec_reward_amount(
        converted,
        ctx.reward_treasury.amount,
    ) > 0
}

/// The reward this donation pays out (zero when the step does not run).
pub open spec fn donate_v2_effective_reward(ctx: DonateV2, converted: u64) -> u64 {
    if donate_v2_reward_fires(ctx, converted) {
        crate::states::spec_reward_amount(converted, ctx.reward_treasury.amount)
    } else {
        0
    }
}

/// The first reason a cross-mint donation fails, or `None` when it
/// succeeds. The converted value is only consulted once the validations
/// pass, so the later branches may read it as a 64-bit amount.
pub open spec fn donate_v2_rejection(ctx: DonateV2, amount: u64) -> Option<CommandError> {
    if !donate_v2_accounts_ok(ctx) {
        Some(CommandError::Constraint)
    } else if !donate_v2_bumps_ok(ctx) {
        Some(CommandError::Custom(DonationError::InvalidBump))
    } else if ctx.donation_data.is_closed {
        Some(CommandError::Custom(DonationError::DonationClosed))
    } else if amount == 0 {
        Some(CommandError::Custom(DonationError::DonationAmountZero))
    } else if ctx.donation_protocol.donation_mint == ctx.donation_mint.key {
        Some(CommandError::Custom(DonationError::InvalidDonationMint))
    } else if ctx.user_token_wallet.amount < amount {
        Some(CommandError::Transfer)
    } else if ctx.holding_wallet.amount + amount > u64::MAX {
        Some(CommandError::Transfer)
    } else if donate_v2_reward_fires(ctx, donate_v2_converted(ctx, amount) as u64)
        && ctx.user_reward_token_wallet.amount + donate_v2_effective_reward(
        ctx,
        donate_v2_converted(ctx, amount) as u64,
    ) > u64::MAX {
        Some(CommandError::Transfer)
    } else {
        None
    }
}

/// Donates `amount` of the campaign's own mint: the tokens move into the
/// escrow unchanged, while the contributor's aggregate and the reward
/// threshold use the amount's default-mint value at the authorized pool's
/// current price.
pub fn donate_v2(ctx: &mut DonateV2, amount: u64) -> (r: Result<(), CommandError>)
    requires
        donate_v2_validated(*old(ctx), amount) ==> old(ctx).pool_state.sqrt_price_x64 >= 1 && old(
            ctx,
        ).default_donation_mint.decimals <= 19 && old(ctx).donation_mint.decimals <= 19
            && donate_v2_converted(*old(ctx), amount) <= u64::MAX,
        donate_v2_rejection(*old(ctx), amount) is None ==> old(
            ctx,
        ).donation_data.total_amount_received + amount <= u64::MAX && old(
            ctx,
        ).contributor_data.total_amount_donated + donate_v2_converted(*old(ctx), amount)
            <= u64::MAX && old(ctx).contributor_data.donations_count + 1 <= u64::MAX && old(
            ctx,
        ).contributor_data.total_amount_earned + donate_v2_effective_reward(
            *old(ctx),
            donate_v2_converted(*old(ctx), amount) as u64,
        ) <= u64::MAX,
    ensures
        r is Ok <==> donate_v2_rejection(*old(ctx), amount) is None,
        r matches Err(e) ==> Some(e) == donate_v2_rejection(*old(ctx), amount),
        r is Err ==> *final(ctx) == *old(ctx),
        r is Ok ==> *final(ctx) == (DonateV2 {
            donation_data: campaign_after_donate(old(ctx).donation_data, amount),
            contributor_data: contributor_after_donate(
                old(ctx).contributor_data,
                donate_v2_converted(*old(ctx), amount) as u64,
                donate_v2_effective_reward(
                    *old(ctx),
                    donate_v2_converted(*old(ctx), amount) as u64,
                ),
            ),
            user_token_wallet: (TokenAccount {
                amount: (old(ctx).user_token_wallet.amount - amount) as u64,
                ..old(ctx).user_token_wallet
            }),
            holding_wallet: (TokenAccount {
                amount: (old(ctx).holding_wallet.amount + amount) as u64,
                ..old(ctx).holding_wallet
            }),
            reward_treasury: (TokenAccount {
                amount: (old(ctx).reward_treasury.amount - donate_v2_effective_reward(
                    *old(ctx),
                    donate_v2_converted(*old(ctx), amount) as u64,
                )) as u64,
                ..old(ctx).reward_treasury
            }),
            user_reward_token_wallet: (TokenAccount {
                amount: (old(ctx).user_reward_token_wallet.amount + donate_v2_effective_reward(
                    *old(ctx),
                    donate_v2_converted(*old(ctx), amount) as u64,
                )) as u64,
                ..old(ctx).user_reward_token_wallet
            }),
            ..*old(ctx)
        }),
        r is Ok && donate_v2_converted(*old(ctx), amount) < old(
            ctx,
        ).donation_protocol.min_amount_to_earn ==> final(ctx).contributor_data.total_amount_earned
            == old(ctx).contributor_data.total_amount_earned,
{
    if ctx.donation_data.donation_protocol != ctx.donation_protocol_key
        || ctx.donation_data.holding_wallet != ctx.holding_wallet.key
        || ctx.contributor_data.donation_protocol != ctx.donation_protocol_key
        || ctx.donation_protocol.donation_mint != ctx.default_donation_mint.key
        || ctx.user_token_wallet.owner != ctx.user_wallet || ctx.user_token_wallet.mint
        != ctx.donation_mint.key || ctx.user_reward_token_wallet.owner != ctx.user_wallet
        || ctx.user_reward_token_wallet.mint != ctx.reward_mint.key
        || ctx.donation_protocol.treasury_mint != ctx.reward_mint.key || ctx.reward_treasury.key
        != ctx.donation_protocol.treasury || ctx.holding_wallet.mint != ctx.donation_mint.key
        || ctx.authorized_clmm_pool.mint != ctx.donation_mint.key
        || ctx.authorized_clmm_pool.donation_protocol != ctx.donation_protocol_key
        || ctx.authorized_clmm_pool.pool_state != ctx.pool_state.key {
        return Err(CommandError::Constraint);
    }
    let pair_forward = ctx.pool_state.token_mint_0 == ctx.donation_protocol.donation_mint
        && ctx.pool_state.token_mint_1 == ctx.donation_mint.key;
    let pair_backward = ctx.pool_state.token_mint_1 == ctx.donation_protocol.donation_mint
        && ctx.pool_state.token_mint_0 == ctx.donation_mint.key;
    if !pair_forward && !pair_backward {
        return Err(CommandError::Constraint);
    }
    let derived_contributor = derive_contributor_address(
        &ctx.donation_protocol_key,
        &ctx.user_wallet,
        ctx.contributor_data.bump,
        &ctx.program_id,
    );
    let contributor_ok = match derived_contributor {
        Some(a) => a == ctx.contributor_data_key,
        None => false,
    };
    let derived_treasury = derive_treasury_owner(
        &ctx.donation_protocol_key,
        ctx.donation_protocol.treasury_owner_bump,
        &ctx.program_id,
    );
    let treasury_ok = match derived_treasury {
        Some(a) => a == ctx.reward_treasury_owner,
        None => false,
    };
    let found_pool = find_authorized_pool_address(
        &ctx.donation_protocol_key,
        &ctx.pool_state.key,
        &ctx.program_id,
    );
    let pool_ok = match found_pool {
        Some(p) => p.0 == ctx.authorized_clmm_pool_key,
        None => false,
    };
    if !contributor_ok || !treasury_ok || !pool_ok {
        return Err(CommandError::Custom(DonationError::InvalidBump));
    }
    if ctx.donation_data.is_closed {
        return Err(CommandError::Custom(DonationError::DonationClosed));
    }
    if amount == 0 {
        return Err(CommandError::Custom(DonationError::DonationAmountZero));
    }
    if ctx.donation_protocol.donation_mint == ctx.donation_mint.key {
        return Err(CommandError::Custom(DonationError::InvalidDonationMint));
    }
    let is_default_token_mint_0 = ctx.pool_state.token_mint_0
        == ctx.donation_protocol.donation_mint;
    let converted = calculate_amount(
        ctx.default_donation_mint.decimals,
        ctx.donation_mint.decimals,
        amount,
        ctx.pool_state.sqrt_price_x64,
        is_default_token_mint_0,
    );
    if ctx.user_token_wallet.amount < amount {
        return Err(CommandError::Transfer);
    }
    if ctx.holding_wallet.amount > u64::MAX - amount {
        return Err(CommandError::Transfer);
    }
    let mut reward: u64 = 0;
    if converted >= ctx.donation_protocol.min_amount_to_earn {
        let treasury_balance = ctx.reward_treasury.amount;
        reward = if converted > treasury_balance {
            treasury_balance / 100
        } else {
            converted
        };
        if reward > 0 && ctx.user_reward_token_wallet.amount > u64::MAX - reward {
            return Err(CommandError::Transfer);
        }
    }
    proof {
        assert(donate_v2_rejection(*old(ctx), amount) is None);
        assert(reward == donate_v2_effective_reward(
            *old(ctx),
            donate_v2_converted(*old(ctx), amount) as u64,
        ));
        assert(reward <= ctx.reward_treasury.amount) by {
            if converted > ctx.reward_treasury.amount {
                assert(ctx.reward_treasury.amount / 100 <= ctx.reward_treasury.amount);
            }
        }
    }
    ctx.user_token_wallet.amount = ctx.user_token_wallet.amount - amount;
    ctx.holding_wallet.amount = ctx.holding_wallet.amount + amount;
    ctx.donation_data.total_amount_received = ctx.donation_data.total_amount_received + amount;
    ctx.contributor_data.total_amount_donated = ctx.contributor_data.total_amount_donated
        + converted;
    ctx.contributor_data.donations_count = ctx.contributor_data.donations_count + 1;
    if reward > 0 {
        ctx.reward_treasury.amount = ctx.reward_treasury.amount - reward;
        ctx.user_reward_token_wallet.amount = ctx.user_reward_token_wallet.amount + reward;
        ctx.contributor_data.total_amount_earned = ctx.contributor_data.total_amount_earned
            + reward;
    }
    Ok(())
}

} // verus!
