//! Lazy registration of a campaign creator.
use vstd::prelude::*;
use crate::errors::{CommandError, DonationError};
use crate::ids::AccountId;
use crate::pda::{find_creator_address, spec_creator_address};
use crate::states::CreatorData;

verus! {

/// The accounts a creator registration reads.
pub struct InitializeCreator {
    /// This contract's own program id, for address re-derivation.
    pub program_id: AccountId,
    /// Address the new creator record will live at.
    pub creator_data_key: AccountId,
    /// Address of the protocol record.
    pub donation_protocol_key: AccountId,
    /// The wallet the record is created for.
    pub creator_wallet_address: AccountId,
    /// The caller paying for the record.
    pub payer: AccountId,
}

/// The derivation check: the record must live at the canonical address for
/// this protocol and wallet.
pub open spec fn init_creator_bumps_ok(ctx: InitializeCreator) -> bool {
    match spec_creator_address(
        ctx.donation_protocol_key,
        ctx.creator_wallet_address,
        ctx.program_id,
    ) {
        Some(p) => p.0 == ctx.creator_data_key,
        None => false,
    }
}

/// The first reason a creator registration fails, or `None`.
pub open spec fn init_creator_rejection(ctx: InitializeCreator) -> Option<CommandError> {
    if !init_creator_bumps_ok(ctx) {
        Some(CommandError::Custom(DonationError::InvalidBump))
    } else {
        None
    }
}

/// The zeroed creator record a successful registration writes.
pub open spec fn spec_new_creator(ctx: InitializeCreator) -> CreatorData {
    CreatorData {
        total_amount_received: 0,
        total_amount_collecting: 0,
        donations_created_count: 0,
        donations_closed_count: 0,
        donation_protocol: ctx.donation_protocol_key,
    }
}

/// Registers a creator once per protocol and wallet: all counters start at
/// zero; the record must sit at its canonical derived address.
pub fn initialize_creator(ctx: &InitializeCreator) -> (r: Result<CreatorData, CommandError>)
    ensures
        r is Ok <==> init_creator_rejection(*ctx) is None,
        r matches Err(e) ==> Some(e) == init_creator_rejection(*ctx),
        r matches Ok(c) ==> c == spec_new_creator(*ctx) && c.donations_created_count == 0
            && c.donations_closed_count == 0 && c.total_amount_received == 0
            && c.total_amount_collecting == 0,
{
    let found = find_creator_address(
        &ctx.donation_protocol_key,
        &ctx.creator_wallet_address,
        &ctx.program_id,
    );
    let addr_ok = match found {
        Some(p) => p.0 == ctx.creator_data_key,
        None => false,
    };
    if !addr_ok {
        return Err(CommandError::Custom(DonationError::InvalidBump));
    }
    Ok(
        CreatorData {
            total_amount_received: 0,
            total_amount_collecting: 0,
            donations_created_count: 0,
            donations_closed_count: 0,
            donation_protocol: ctx.donation_protocol_key,
        },
    )
}

} // verus!
