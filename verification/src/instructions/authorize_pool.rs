//! Allow-listing of one pool instance of an authorized AMM.
use vstd::prelude::*;
use crate::errors::{CommandError, DonationError};
use crate::ids::AccountId;
use crate::pda::{find_authorized_pool_address, spec_authorized_pool_address};
use crate::states::{AuthorizedClmm, AuthorizedClmmPool, DonationProtocolData};
use crate::tokens::{Mint, PoolState};

verus! {

/// The accounts a pool authorization reads.
pub struct AuthorizeClmmPool {
    /// This contract's own program id, for address re-derivation.
    pub program_id: AccountId,
    /// Address the new authorization record will live at.
    pub authorized_clmm_pool_key: AccountId,
    /// The pool being allow-listed.
    pub pool_state: PoolState,
    /// Address of the AMM configuration account the pool claims.
    pub amm_config_key: AccountId,
    /// Address of the protocol record.
    pub donation_protocol_key: AccountId,
    /// The protocol configuration.
    pub donation_protocol: DonationProtocolData,
    /// The non-default mint the pool quotes against the default mint.
    pub donation_amm_mint: Mint,
    /// The AMM authorization this pool belongs under.
    pub authorized_clmm: AuthorizedClmm,
    /// The caller, who must be the protocol authority.
    pub payer: AccountId,
}

/// The plain account constraints of a pool authorization: the pool must
/// quote exactly the pair (default mint, the named mint), reference its AMM
/// configuration, and the caller must be the protocol authority.
pub open spec fn authorize_pool_accounts_ok(ctx: AuthorizeClmmPool) -> bool {
    &&& ((ctx.pool_state.token_mint_0 == ctx.donation_protocol.donation_mint
        && ctx.pool_state.token_mint_1 == ctx.donation_amm_mint.key) || (
    ctx.pool_state.token_mint_1 == ctx.donation_protocol.donation_mint
        && ctx.pool_state.token_mint_0 == ctx.donation_amm_mint.key))
    &&& ctx.pool_state.amm_config == ctx.amm_config_key
    &&& ctx.donation_protocol.authority == ctx.payer
    &&& ctx.authorized_clmm.donation_protocol == ctx.donation_protocol_key
}

/// The derivation check: the record must live at the canonical address for
/// this protocol and pool.
pub open spec fn authorize_pool_bumps_ok(ctx: AuthorizeClmmPool) -> bool {
    match spec_authorized_pool_address(
        ctx.donation_protocol_key,
        ctx.pool_state.key,
        ctx.program_id,
    ) {
        Some(p) => p.0 == ctx.authorized_clmm_pool_key,
        None => false,
    }
}

/// The first reason a pool authorization fails, or `None`.
pub open spec fn authorize_pool_rejection(ctx: AuthorizeClmmPool) -> Option<CommandError> {
    if !authorize_pool_accounts_ok(ctx) {
        Some(CommandError::Constraint)
    } else if !authorize_pool_bumps_ok(ctx) {
        Some(CommandError::Custom(DonationError::InvalidBump))
    } else {
        None
    }
}

/// Allow-lists one pool instance: records the pool, its AMM program, and
/// the non-default mint it quotes. Authority-gated; the contract never
/// trusts a pool that was not so authorized.
pub fn authorize_clmm_pool(ctx: &AuthorizeClmmPool) -> (r: Result<
    AuthorizedClmmPool,
    CommandError,
>)
    ensures
        r is Ok <==> authorize_pool_rejection(*ctx) is None,
        r matches Err(e) ==> Some(e) == authorize_pool_rejection(*ctx),
        r matches Ok(p) ==> p == (AuthorizedClmmPool {
            pool_state: ctx.pool_state.key,
            program_id: ctx.authorized_clmm.program_id,
            mint: ctx.donation_amm_mint.key,
            donation_protocol: ctx.donation_protocol_key,
        }),
{
    let pair_forward = ctx.pool_state.token_mint_0 == ctx.donation_protocol.donation_mint
        && ctx.pool_state.token_mint_1 == ctx.donation_amm_mint.key;
    let pair_backward = ctx.pool_state.token_mint_1 == ctx.donation_protocol.donation_mint
        && ctx.pool_state.token_mint_0 == ctx.donation_amm_mint.key;
    if (!pair_forward && !pair_backward) || ctx.pool_state.amm_config != ctx.amm_config_key
        || ctx.donation_protocol.authority != ctx.payer || ctx.authorized_clmm.donation_protocol
        != ctx.donation_protocol_key {
        return Err(CommandError::Constraint);
    }
    let found = find_authorized_pool_address(
        &ctx.donation_protocol_key,
        &ctx.pool_state.key,
        &ctx.program_id,
    );
    let addr_ok = match found {
        Some(p) => p.0 == ctx.authorized_clmm_pool_key,
        None => false,
    };
    if !addr_ok {
        return Err(CommandError::Custom(DonationError::InvalidBump));
    }
    Ok(
        AuthorizedClmmPool {
            pool_state: ctx.pool_state.key,
            program_id: ctx.authorized_clmm.program_id,
            mint: ctx.donation_amm_mint.key,
            donation_protocol: ctx.donation_protocol_key,
        },
    )
}

} // verus!
