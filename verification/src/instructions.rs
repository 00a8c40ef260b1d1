//! The command handlers, one module per command.
pub mod authorize_clmm;
pub mod authorize_pool;
pub mod create_donation;
pub mod create_donation_v2;
pub mod donate;
pub mod donate_v2;
pub mod initialize_contributor;
pub mod initialize_creator;
pub mod initialize_donation_protocol;
pub mod withdraw_funds;
pub mod withdraw_funds_v2;
