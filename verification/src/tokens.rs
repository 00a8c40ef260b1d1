//! Plain-value models of the ledger accounts a command reads: token
//! accounts, mints, and the external pool state whose price the cross-mint
//! path consults. The ledger itself (balances, transfer execution) is the
//! host's; commands here read these values and state how balances change.
use vstd::prelude::*;
use crate::ids::AccountId;

verus! {

/// A token account of the host ledger: a balance of one mint, owned by one
/// signer, living at `key`.
#[derive(Clone, Copy, PartialEq, Eq, Debug)]
pub struct TokenAccount {
    /// Address of the account itself.
    pub key: AccountId,
    /// The mint this account holds.
    pub mint: AccountId,
    /// The signer allowed to move its balance.
    pub owner: AccountId,
    /// Current balance.
    pub amount: u64,
}

/// A fungible-token mint.
#[derive(Clone, Copy, PartialEq, Eq, Debug)]
pub struct Mint {
    /// Address of the mint.
    pub key: AccountId,
    /// Number of base-10 fractional digits of one token.
    pub decimals: u8,
}

/// The external pool record a cross-mint command reads: its current
/// square-root price in Q64.64 form and the mint pair it quotes.
#[derive(Clone, Copy, PartialEq, Eq, Debug)]
pub struct PoolState {
    /// Address of the pool record.
    pub key: AccountId,
    /// The AMM configuration account the pool was created from.
    pub amm_config: AccountId,
    /// First mint of the quoted pair.
    pub token_mint_0: AccountId,
    /// Second mint of the quoted pair.
    pub token_mint_1: AccountId,
    /// `sqrt(price of token 1 in token 0) * 2^64`, as the pool reports it.
    pub sqrt_price_x64: u128,
}

} // verus!
