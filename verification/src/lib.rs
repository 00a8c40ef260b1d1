//! A donation protocol for an account-based token ledger, written as a
//! verified state machine.
//!
//! Creators publish fundraising campaigns denominated in a fungible token;
//! contributors donate into a per-campaign escrow and may earn rewards from a
//! protocol treasury; creators withdraw once a campaign's deadline has passed
//! or its target is reached. A second code path accepts donations in other
//! tokens and converts their value to the protocol's default token at the
//! price an authorized liquidity pool reports.
//!
//! Each command handler takes the referenced accounts as plain values,
//! re-checks every account constraint, and either commits all of its writes
//! or returns an error having changed nothing. The host runtime loads the
//! accounts, persists the results, and executes the token transfers the
//! contracts here promise.
pub mod errors;
pub mod ids;
pub mod instructions;
pub mod layout;
pub mod pda;
pub mod states;
pub mod tokens;
pub mod trace;
pub mod utils;
pub mod wide;

pub use instructions::authorize_clmm::authorize_clmm;
pub use instructions::authorize_pool::authorize_clmm_pool;
pub use instructions::create_donation::create_donation;
pub use instructions::create_donation_v2::create_donation_v2;
pub use instructions::donate::donate;
pub use instructions::donate_v2::donate_v2;
pub use instructions::initialize_contributor::initialize_contributor;
pub use instructions::initialize_creator::initialize_creator;
pub use instructions::initialize_donation_protocol::initialize_donation_protocol;
pub use instructions::withdraw_funds::withdraw_funds;
pub use instructions::withdraw_funds_v2::withdraw_funds_v2;
