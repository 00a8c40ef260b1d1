//! The persistent records of the protocol, as plain values.
//!
//! On the host ledger each record is stored behind an 8-byte discriminator
//! followed by its fields in declaration order, little-endian, identifiers as
//! 32 bytes; the `*_LEN` constants give each record's full stored size.
use vstd::prelude::*;
use crate::ids::AccountId;

verus! {

/// Stored size of the 8-byte record discriminator.
pub const DISCRIMINATOR_LEN: usize = 8;

/// Longest stored campaign description hash, in bytes.
pub const MAX_IPFS_HASH_LEN: usize = 64;

/// Global configuration of one protocol deployment.
#[derive(Clone, Copy, PartialEq, Eq, Debug)]
pub struct DonationProtocolData {
    /// Mint of the reward token paid from the treasury.
    pub treasury_mint: AccountId,
    /// Token account holding the reward escrow.
    pub treasury: AccountId,
    /// The default donation mint: the protocol's accounting currency.
    pub donation_mint: AccountId,
    /// Wallet allowed to authorize external price pools.
    pub authority: AccountId,
    /// Smallest donation (in the default mint) that earns a reward.
    pub min_amount_to_earn: u64,
    /// Smallest campaign target a creator may set.
    pub min_amount_to_collect: u64,
    /// Nonce that re-derives the signer owning the treasury escrow.
    pub treasury_owner_bump: u8,
}

/// Stored size of a protocol record.
pub const DONATION_PROTOCOL_DATA_LEN: usize = DISCRIMINATOR_LEN + 32 + 32 + 32 + 32 + 8 + 8 + 1;

/// One fundraising campaign.
#[derive(Clone, PartialEq, Eq, Debug)]
pub struct DonationData {
    /// The campaign target, in the campaign's own mint.
    pub amount_collecting: u64,
    /// Sum of all successful donations so far, in the campaign's own mint.
    pub total_amount_received: u64,
    /// Unix seconds after which withdrawal no longer needs the target.
    pub ending_timestamp: u64,
    /// Set once by a successful withdrawal; never cleared.
    pub is_closed: bool,
    /// Token account paid on withdrawal.
    pub recipient: AccountId,
    /// The protocol this campaign belongs to.
    pub donation_protocol: AccountId,
    /// The escrow token account donations accumulate in.
    pub holding_wallet: AccountId,
    /// The creator record this campaign counts against.
    pub creator_data: AccountId,
    /// Mint the campaign is denominated in (may differ from the default).
    pub donation_mint: AccountId,
    /// Nonce that re-derives the signer owning the escrow.
    pub holding_bump: u8,
    /// Description hash, at most `MAX_IPFS_HASH_LEN` bytes of UTF-8.
    pub ipfs_hash: String,
}

/// Stored size of a campaign record; the description hash takes a 4-byte
/// length prefix and a fixed 64-byte slot.
pub const DONATION_DATA_LEN: usize = DISCRIMINATOR_LEN + 8 + 8 + 8 + 1 + 32 + 32 + 32 + 32 + 32 + 1
    + 4 + MAX_IPFS_HASH_LEN;

impl DonationData {
    /// A stored campaign always respects the description-hash bound.
    pub open spec fn wf(self) -> bool {
        vstd::utf8::encode_utf8(self.ipfs_hash@).len() <= MAX_IPFS_HASH_LEN
    }
}

/// Aggregate statistics of one campaign creator.
#[derive(Clone, Copy, PartialEq, Eq, Debug)]
pub struct CreatorData {
    /// Sum withdrawn across this creator's closed campaigns, in the default mint.
    pub total_amount_received: u64,
    /// Sum of targets across this creator's campaigns, in the default mint.
    pub total_amount_collecting: u64,
    /// Number of campaigns this creator has created.
    pub donations_created_count: u64,
    /// Number of this creator's campaigns that have been closed.
    pub donations_closed_count: u64,
    /// The protocol this record belongs to.
    pub donation_protocol: AccountId,
}

/// Stored size of a creator record.
pub const CREATOR_DATA_LEN: usize = DISCRIMINATOR_LEN + 8 + 8 + 8 + 8 + 32;

/// Aggregate statistics of one contributor.
#[derive(Clone, Copy, PartialEq, Eq, Debug)]
pub struct ContributorData {
    /// Sum of this contributor's donations, in the default mint.
    pub total_amount_donated: u64,
    /// Sum of rewards earned, in the reward mint.
    pub total_amount_earned: u64,
    /// Number of successful donations.
    pub donations_count: u64,
    /// The protocol this record belongs to.
    pub donation_protocol: AccountId,
    /// Nonce that re-derives this record's own address.
    pub bump: u8,
}

/// Stored size of a contributor record.
pub const CONTRIBUTOR_DATA_LEN: usize = DISCRIMINATOR_LEN + 8 + 8 + 8 + 32 + 1;

/// An allow-listed external AMM implementation.
#[derive(Clone, Copy, PartialEq, Eq, Debug)]
pub struct AuthorizedClmm {
    /// The AMM program's identifier.
    pub program_id: AccountId,
    /// The protocol this authorization belongs to.
    pub donation_protocol: AccountId,
}

/// Stored size of an AMM authorization record.
pub const AUTHORIZED_CLMM_LEN: usize = DISCRIMINATOR_LEN + 32 + 32;

/// An allow-listed pool instance, bound to one mint pair.
#[derive(Clone, Copy, PartialEq, Eq, Debug)]
pub struct AuthorizedClmmPool {
    /// The external pool record this authorization covers.
    pub pool_state: AccountId,
    /// The AMM program owning the pool.
    pub program_id: AccountId,
    /// The non-default mint the pool quotes against the default mint.
    pub mint: AccountId,
    /// The protocol this authorization belongs to.
    pub donation_protocol: AccountId,
}

/// Stored size of a pool authorization record.
pub const AUTHORIZED_CLMM_POOL_LEN: usize = DISCRIMINATOR_LEN + 32 + 32 + 32 + 32;

/// A campaign after one successful donation of `amount` (in its own mint).
pub open spec fn campaign_after_donate(c: DonationData, amount: u64) -> DonationData
    recommends
        c.total_amount_received + amount <= u64::MAX,
{
    DonationData { total_amount_received: (c.total_amount_received + amount) as u64, ..c }
}

/// A campaign after its one successful withdrawal.
pub open spec fn campaign_after_withdraw(c: DonationData) -> DonationData {
    DonationData { is_closed: true, ..c }
}

/// A contributor after one successful donation worth `converted` default-mint
/// units, rewarded with `reward` reward-mint tokens.
pub open spec fn contributor_after_donate(
    k: ContributorData,
    converted: u64,
    reward: u64,
) -> ContributorData
    recommends
        k.total_amount_donated + converted <= u64::MAX,
        k.total_amount_earned + reward <= u64::MAX,
        k.donations_count + 1 <= u64::MAX,
{
    ContributorData {
        total_amount_donated: (k.total_amount_donated + converted) as u64,
        total_amount_earned: (k.total_amount_earned + reward) as u64,
        donations_count: (k.donations_count + 1) as u64,
        ..k
    }
}

/// A creator after creating one campaign worth `target` default-mint units.
pub open spec fn creator_after_create(g: CreatorData, target: u64) -> CreatorData
    recommends
        g.total_amount_collecting + target <= u64::MAX,
        g.donations_created_count + 1 <= u64::MAX,
{
    CreatorData {
        total_amount_collecting: (g.total_amount_collecting + target) as u64,
        donations_created_count: (g.donations_created_count + 1) as u64,
        ..g
    }
}

/// A creator after one of its campaigns was withdrawn, paying out `received`
/// default-mint units.
pub open spec fn creator_after_withdraw(g: CreatorData, received: u64) -> CreatorData
    recommends
        g.total_amount_received + received <= u64::MAX,
        g.donations_closed_count + 1 <= u64::MAX,
{
    CreatorData {
        total_amount_received: (g.total_amount_received + received) as u64,
        donations_closed_count: (g.donations_closed_count + 1) as u64,
        ..g
    }
}

/// The reward one donation earns: the donated value itself (in default-mint
/// units), capped by the treasury — when the treasury cannot cover it, a
/// hundredth of the treasury balance, rounded down.
pub open spec fn spec_reward_amount(converted: u64, treasury_balance: u64) -> u64 {
    if converted > treasury_balance {
        treasury_balance / 100
    } else {
        converted
    }
}

} // verus!
