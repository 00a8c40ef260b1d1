//! Creation of a protocol deployment.
use vstd::prelude::*;
use crate::errors::{CommandError, DonationError};
use crate::ids::AccountId;
use crate::pda::{derive_treasury_owner, spec_treasury_owner};
use crate::states::DonationProtocolData;
use crate::tokens::{Mint, TokenAccount};

verus! {

/// The accounts a protocol initialization reads.
pub struct InitializeDonationProtocol {
    /// This contract's own program id, for address re-derivation.
    pub program_id: AccountId,
    /// Address the new protocol record will live at.
    pub donation_protocol_data_key: AccountId,
    /// The reward escrow token account.
    pub treasury: TokenAccount,
    /// The reward mint.
    pub treasury_mint: Mint,
    /// The default donation mint.
    pub donation_mint: Mint,
    /// The caller, recorded as the protocol authority.
    pub payer: AccountId,
}

/// The plain account constraints of a protocol initialization.
pub open spec fn init_protocol_accounts_ok(ctx: InitializeDonationProtocol) -> bool {
    ctx.treasury.mint == ctx.treasury_mint.key
}

/// The nonce re-derivation: the treasury escrow must be owned by the signer
/// derived from the new protocol address and the supplied nonce.
pub open spec fn init_protocol_bumps_ok(
    ctx: InitializeDonationProtocol,
    treasury_owner_bump: u8,
) -> bool {
    spec_treasury_owner(ctx.donation_protocol_data_key, treasury_owner_bump, ctx.program_id)
        == Some(ctx.treasury.owner)
}

/// The first reason a protocol initialization fails, or `None`.
pub open spec fn init_protocol_rejection(
    ctx: InitializeDonationProtocol,
    treasury_owner_bump: u8,
) -> Option<CommandError> {
    if !init_protocol_accounts_ok(ctx) {
        Some(CommandError::Constraint)
    } else if !init_protocol_bumps_ok(ctx, treasury_owner_bump) {
        Some(CommandError::Custom(DonationError::InvalidBump))
    } else {
        None
    }
}

/// The protocol record a successful initialization writes.
pub open spec fn spec_new_protocol(
    ctx: InitializeDonationProtocol,
    min_amount_to_earn: u64,
    min_amount_to_collect: u64,
    treasury_owner_bump: u8,
) -> DonationProtocolData {
    DonationProtocolData {
        treasury_mint: ctx.treasury_mint.key,
        treasury: ctx.treasury.key,
        donation_mint: ctx.donation_mint.key,
        authority: ctx.payer,
        min_amount_to_earn,
        min_amount_to_collect,
        treasury_owner_bump,
    }
}

/// Creates a protocol deployment: binds the reward escrow to the treasury
/// signer derived with the supplied nonce and records the caller as the
/// authority allowed to authorize pools.
pub fn initialize_donation_protocol(
    ctx: &InitializeDonationProtocol,
    min_amount_to_earn: u64,
    min_amount_to_collect: u64,
    treasury_owner_bump: u8,
) -> (r: Result<DonationProtocolData, CommandError>)
    ensures
        r is Ok <==> init_protocol_rejection(*ctx, treasury_owner_bump) is None,
        r matches Err(e) ==> Some(e) == init_protocol_rejection(*ctx, treasury_owner_bump),
        r matches Ok(p) ==> p == spec_new_protocol(
            *ctx,
            min_amount_to_earn,
            min_amount_to_collect,
            treasury_owner_bump,
        ),
{
    if ctx.treasury.mint != ctx.treasury_mint.key {
        return Err(CommandError::Constraint);
    }
    let derived_owner = derive_treasury_owner(
        &ctx.donation_protocol_data_key,
        treasury_owner_bump,
        &ctx.program_id,
    );
    let owner_ok = match derived_owner {
        Some(a) => a == ctx.treasury.owner,
        None => false,
    };
    if !owner_ok {
        return Err(CommandError::Custom(DonationError::InvalidBump));
    }
    Ok(
        DonationProtocolData {
            treasury_mint: ctx.treasury_mint.key,
            treasury: ctx.treasury.key,
            donation_mint: ctx.donation_mint.key,
            authority: ctx.payer,
            min_amount_to_earn,
            min_amount_to_collect,
            treasury_owner_bump,
        },
    )
}

} // verus!
