//! Creation of a campaign in the protocol's default mint.
use vstd::prelude::*;
use vstd::utf8::encode_utf8;
use crate::errors::{CommandError, DonationError};
use crate::ids::AccountId;
use crate::pda::{
    derive_holding_owner, find_creator_address, spec_creator_address, spec_holding_owner,
};
use crate::states::{
    creator_after_create, CreatorData, DonationData, DonationProtocolData, MAX_IPFS_HASH_LEN,
};
use crate::tokens::{Mint, TokenAccount};

verus! {

/// The accounts a default-mint campaign creation reads and writes.
pub struct CreateDonation {
    /// This contract's own program id, for address re-derivation.
    pub program_id: AccountId,
    /// Address the new campaign record will live at.
    pub donation_data_key: AccountId,
    /// Address of the protocol record.
    pub donation_protocol_key: AccountId,
    /// The protocol configuration.
    pub donation_protocol: DonationProtocolData,
    /// The escrow token account donations will accumulate in.
    pub holding_wallet: TokenAccount,
    /// The signer owning the escrow.
    pub holding_wallet_owner: AccountId,
    /// The token account withdrawals will pay.
    pub recipient: TokenAccount,
    /// Address of the creator record.
    pub creator_data_key: AccountId,
    /// The creator's aggregate record.
    pub creator_data: CreatorData,
    /// The campaign's donation mint.
    pub donation_mint: Mint,
    /// The creator, who signed the command.
    pub creator_wallet_address: AccountId,
}

/// The plain account constraints of a default-mint campaign creation.
pub open spec fn create_donation_accounts_ok(ctx: CreateDonation) -> bool {
    &&& ctx.donation_protocol.donation_mint == ctx.donation_mint.key
    &&& ctx.holding_wallet.owner == ctx.holding_wallet_owner
    &&& ctx.holding_wallet.mint == ctx.donation_mint.key
    &&& ctx.recipient.mint == ctx.donation_mint.key
    &&& ctx.creator_data.donation_protocol == ctx.donation_protocol_key
}

/// The nonce re-derivations of a campaign creation: the escrow signer from
/// the supplied nonce, and the creator record at its canonical address.
pub open spec fn create_donation_bumps_ok(ctx: CreateDonation, holding_bump: u8) -> bool {
    &&& spec_holding_owner(ctx.donation_data_key, holding_bump, ctx.program_id) == Some(
        ctx.holding_wallet_owner,
    )
    &&& match spec_creator_address(
        ctx.donation_protocol_key,
        ctx.creator_wallet_address,
        ctx.program_id,
    ) {
        Some(p) => p.0 == ctx.creator_data_key,
        None => false,
    }
}

/// The first reason a campaign creation fails, or `None` when it succeeds:
/// account constraints, nonce checks, then deadline, description length,
/// and target in that order.
pub open spec fn create_donation_rejection(
    ctx: CreateDonation,
    amount: u64,
    ipfs_hash: String,
    ending_timestamp: u64,
    holding_bump: u8,
    now: u64,
) -> Option<CommandError> {
    if !create_donation_accounts_ok(ctx) {
        Some(CommandError::Constraint)
    } else if !create_donation_bumps_ok(ctx, holding_bump) {
        Some(CommandError::Custom(DonationError::InvalidBump))
    } else if ending_timestamp <= now {
        Some(CommandError::Custom(DonationError::InvalidEndingTimestamp))
    } else if encode_utf8(ipfs_hash@).len() > MAX_IPFS_HASH_LEN {
        Some(CommandError::Custom(DonationError::IpfsHashTooLong))
    } else if amount < ctx.donation_protocol.min_amount_to_collect {
        Some(CommandError::Custom(DonationError::DonationAmountTooLow))
    } else {
        None
    }
}

/// The campaign record a successful creation writes.
pub open spec fn spec_new_campaign(
    ctx: CreateDonation,
    amount: u64,
    ipfs_hash: String,
    ending_timestamp: u64,
    holding_bump: u8,
) -> DonationData {
    DonationData {
        amount_collecting: amount,
        total_amount_received: 0,
        ending_timestamp,
        is_closed: false,
        recipient: ctx.recipient.key,
        donation_protocol: ctx.donation_protocol_key,
        holding_wallet: ctx.holding_wallet.key,
        creator_data: ctx.creator_data_key,
        donation_mint: ctx.donation_mint.key,
        holding_bump,
        ipfs_hash,
    }
}

/// Whether a description hash is over the stored bound, measured in bytes
/// of its UTF-8 form.
pub fn ipfs_hash_too_long(s: &String) -> (r: bool)
    ensures
        r == (encode_utf8(s@).len() > MAX_IPFS_HASH_LEN),
{
    let b = s.as_str().as_bytes_vec();
    b.len() > MAX_IPFS_HASH_LEN
}

/// Creates a campaign in the default mint: validates the deadline, the
/// description hash, and the target against the protocol minimum, then
/// returns the fresh open campaign record and counts it on the creator.
pub fn create_donation(
    ctx: &mut CreateDonation,
    amount: u64,
    ipfs_hash: String,
    ending_timestamp: u64,
    holding_bump: u8,
    now: u64,
) -> (r: Result<DonationData, CommandError>)
    requires
        create_donation_rejection(
            *old(ctx),
            amount,
            ipfs_hash,
            ending_timestamp,
            holding_bump,
            now,
        ) is None ==> old(ctx).creator_data.total_amount_collecting + amount <= u64::MAX && old(
            ctx,
        ).creator_data.donations_created_count + 1 <= u64::MAX,
    ensures
        r is Ok <==> create_donation_rejection(
            *old(ctx),
            amount,
            ipfs_hash,
            ending_timestamp,
            holding_bump,
            now,
        ) is None,
        r matches Err(e) ==> Some(e) == create_donation_rejection(
            *old(ctx),
            amount,
            ipfs_hash,
            ending_timestamp,
            holding_bump,
            now,
        ),
        r is Err ==> *final(ctx) == *old(ctx),
        r matches Ok(dd) ==> dd == spec_new_campaign(
            *old(ctx),
            amount,
            ipfs_hash,
            ending_timestamp,
            holding_bump,
        ) && dd.wf() && !dd.is_closed && dd.total_amount_received == 0 && *final(ctx)
            == (CreateDonation {
            creator_data: creator_after_create(old(ctx).creator_data, amount),
            ..*old(ctx)
        }),
{
    if ctx.donation_protocol.donation_mint != ctx.donation_mint.key || ctx.holding_wallet.owner
        != ctx.holding_wallet_owner || ctx.holding_wallet.mint != ctx.donation_mint.key
        || ctx.recipient.mint != ctx.donation_mint.key || ctx.creator_data.donation_protocol
        != ctx.donation_protocol_key {
        return Err(CommandError::Constraint);
    }
    let derived_owner = derive_holding_owner(&ctx.donation_data_key, holding_bump, &ctx.program_id);
    let owner_ok = match derived_owner {
        Some(a) => a == ctx.holding_wallet_owner,
        None => false,
    };
    let found_creator = find_creator_address(
        &ctx.donation_protocol_key,
        &ctx.creator_wallet_address,
        &ctx.program_id,
    );
    let creator_ok = match found_creator {
        Some(p) => p.0 == ctx.creator_data_key,
        None => false,
    };
    if !owner_ok || !creator_ok {
        return Err(CommandError::Custom(DonationError::InvalidBump));
    }
    if ending_timestamp <= now {
        return Err(CommandError::Custom(DonationError::InvalidEndingTimestamp));
    }
    if ipfs_hash_too_long(&ipfs_hash) {
        return Err(CommandError::Custom(DonationError::IpfsHashTooLong));
    }
    if amount < ctx.donation_protocol.min_amount_to_collect {
        return Err(CommandError::Custom(DonationError::DonationAmountTooLow));
    }
    ctx.creator_data.total_amount_collecting = ctx.creator_data.total_amount_collecting + amount;
    ctx.creator_data.donations_created_count = ctx.creator_data.donations_created_count + 1;
    Ok(
        DonationData {
            amount_collecting: amount,
            total_amount_received: 0,
            ending_timestamp,
            is_closed: false,
            recipient: ctx.recipient.key,
            donation_protocol: ctx.donation_protocol_key,
            holding_wallet: ctx.holding_wallet.key,
            creator_data: ctx.creator_data_key,
            donation_mint: ctx.donation_mint.key,
            holding_bump,
            ipfs_hash,
        },
    )
}

} // verus!
