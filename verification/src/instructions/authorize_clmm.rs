//! Allow-listing of an external AMM implementation.
use vstd::prelude::*;
use crate::errors::{CommandError, DonationError};
use crate::ids::AccountId;
use crate::pda::{find_authorized_clmm_address, spec_authorized_clmm_address};
use crate::states::{AuthorizedClmm, DonationProtocolData};

verus! {

/// The accounts an AMM authorization reads.
pub struct AuthorizeClmm {
    /// This contract's own program id, for address re-derivation.
    pub program_id: AccountId,
    /// Address the new authorization record will live at.
    pub authorized_clmm_key: AccountId,
    /// Address of the protocol record.
    pub donation_protocol_key: AccountId,
    /// The protocol configuration.
    pub donation_protocol: DonationProtocolData,
    /// The caller, who must be the protocol authority.
    pub payer: AccountId,
}

/// The plain account constraints: only the protocol authority may
/// allow-list an AMM.
pub open spec fn authorize_clmm_accounts_ok(ctx: AuthorizeClmm) -> bool {
    ctx.donation_protocol.authority == ctx.payer
}

/// The derivation check: the record must live at the canonical address for
/// this protocol and AMM program.
pub open spec fn authorize_clmm_bumps_ok(ctx: AuthorizeClmm, clmm_program_id: AccountId) -> bool {
    match spec_authorized_clmm_address(ctx.donation_protocol_key, clmm_program_id, ctx.program_id) {
        Some(p) => p.0 == ctx.authorized_clmm_key,
        None => false,
    }
}

/// The first reason an AMM authorization fails, or `None`.
pub open spec fn authorize_clmm_rejection(
    ctx: AuthorizeClmm,
    clmm_program_id: AccountId,
) -> Option<CommandError> {
    if !authorize_clmm_accounts_ok(ctx) {
        Some(CommandError::Constraint)
    } else if !authorize_clmm_bumps_ok(ctx, clmm_program_id) {
        Some(CommandError::Custom(DonationError::InvalidBump))
    } else {
        None
    }
}

/// Allow-lists an AMM program for this protocol. Authority-gated.
pub fn authorize_clmm(ctx: &AuthorizeClmm, program_id: AccountId) -> (r: Result<
    AuthorizedClmm,
    CommandError,
>)
    ensures
        r is Ok <==> authorize_clmm_rejection(*ctx, program_id) is None,
        r matches Err(e) ==> Some(e) == authorize_clmm_rejection(*ctx, program_id),
        r matches Ok(a) ==> a == (AuthorizedClmm {
            program_id,
            donation_protocol: ctx.donation_protocol_key,
        }),
{
    if ctx.donation_protocol.authority != ctx.payer {
        return Err(CommandError::Constraint);
    }
    let found = find_authorized_clmm_address(
        &ctx.donation_protocol_key,
        &program_id,
        &ctx.program_id,
    );
    let addr_ok = match found {
        Some(p) => p.0 == ctx.authorized_clmm_key,
        None => false,
    };
    if !addr_ok {
        return Err(CommandError::Custom(DonationError::InvalidBump));
    }
    Ok(AuthorizedClmm { program_id, donation_protocol: ctx.donation_protocol_key })
}

} // verus!
