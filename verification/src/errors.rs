//! Error codes surfaced by the command handlers.
use vstd::prelude::*;

verus! {

/// Typed failures of the protocol's own validation rules.
#[derive(Clone, Copy, PartialEq, Eq, Structural, Debug)]
pub enum DonationError {
    /// A campaign deadline that is not in the future.
    InvalidEndingTimestamp,
    /// A supplied nonce whose derivation does not reproduce the account address.
    InvalidBump,
    /// The campaign is already closed.
    DonationClosed,
    /// A donation of zero tokens.
    DonationAmountZero,
    /// A campaign target below the protocol minimum.
    DonationAmountTooLow,
    /// A withdrawal before the deadline with the target not reached.
    EndingRequirementsNotMet,
    /// A campaign description hash longer than the stored bound.
    IpfsHashTooLong,
    /// A donation mint that does not fit the chosen command variant.
    InvalidDonationMint,
}

/// Everything a command can fail with: a mismatch among the referenced
/// accounts (checked before the handler body, as the host runtime does), a
/// token-ledger transfer the ledger would refuse, or one of the protocol's
/// own error codes.
#[derive(Clone, Copy, PartialEq, Eq, Structural, Debug)]
pub enum CommandError {
    /// A referenced account does not satisfy the command's account constraints.
    Constraint,
    /// The token ledger would refuse a transfer this command must make.
    Transfer,
    /// A validation rule of the protocol itself failed.
    Custom(DonationError),
}

} // verus!
