//! Lazy registration of a contributor.
use vstd::prelude::*;
use crate::errors::{CommandError, DonationError};
use crate::ids::AccountId;
use crate::pda::{derive_contributor_address, spec_contributor_address};
use crate::states::ContributorData;

verus! {

/// The accounts a contributor registration reads.
pub struct InitializeContributor {
    /// This contract's own program id, for address re-derivation.
    pub program_id: AccountId,
    /// Address the new contributor record will live at.
    pub contributor_data_key: AccountId,
    /// Address of the protocol record.
    pub donation_protocol_key: AccountId,
    /// The wallet the record is created for.
    pub contributor_wallet_address: AccountId,
    /// The caller paying for the record.
    pub payer: AccountId,
}

/// The derivation check: the supplied nonce must re-derive the record's
/// address from the protocol and wallet.
pub open spec fn init_contributor_bumps_ok(ctx: InitializeContributor, bump: u8) -> bool {
    spec_contributor_address(
        ctx.donation_protocol_key,
        ctx.contributor_wallet_address,
        bump,
        ctx.program_id,
    ) == Some(ctx.contributor_data_key)
}

/// The first reason a contributor registration fails, or `None`.
pub open spec fn init_contributor_rejection(ctx: InitializeContributor, bump: u8) -> Option<
    CommandError,
> {
    if !init_contributor_bumps_ok(ctx, bump) {
        Some(CommandError::Custom(DonationError::InvalidBump))
    } else {
        None
    }
}

/// The zeroed contributor record a successful registration writes; the
/// nonce is persisted for later re-derivation.
pub open spec fn spec_new_contributor(ctx: InitializeContributor, bump: u8) -> ContributorData {
    ContributorData {
        total_amount_donated: 0,
        total_amount_earned: 0,
        donations_count: 0,
        donation_protocol: ctx.donation_protocol_key,
        bump,
    }
}

/// Registers a contributor once per protocol and wallet: all counters start
/// at zero, and the supplied nonce is validated by re-derivation and then
/// stored on the record.
pub fn initialize_contributor(ctx: &InitializeContributor, bump: u8) -> (r: Result<
    ContributorData,
    CommandError,
>)
    ensures
        r is Ok <==> init_contributor_rejection(*ctx, bump) is None,
        r matches Err(e) ==> Some(e) == init_contributor_rejection(*ctx, bump),
        r matches Ok(k) ==> k == spec_new_contributor(*ctx, bump) && k.donations_count == 0
            && k.total_amount_donated == 0 && k.total_amount_earned == 0 && k.bump == bump,
{
    let derived = derive_contributor_address(
        &ctx.donation_protocol_key,
        &ctx.contributor_wallet_address,
        bump,
        &ctx.program_id,
    );
    let addr_ok = match derived {
        Some(a) => a == ctx.contributor_data_key,
        None => false,
    };
    if !addr_ok {
        return Err(CommandError::Custom(DonationError::InvalidBump));
    }
    Ok(
        ContributorData {
            total_amount_donated: 0,
            total_amount_earned: 0,
            donations_count: 0,
            donation_protocol: ctx.donation_protocol_key,
            bump,
        },
    )
}

} // verus!
