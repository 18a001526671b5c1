//! Error taxonomy of the escrow core.
//!
//! Every transition is atomic: on any error the record set it was handed is
//! left exactly as it was, and the host persists nothing.

use vstd::prelude::*;

verus! {

/// Errors of the settlement transitions (termination and milestone payout).
#[derive(Clone, Copy, Debug, PartialEq, Eq, Structural)]
pub enum ContractError {
    /// The caller is neither the client nor the freelancer of the agreement.
    Unauthorized,
    /// The milestone index is not a position of the agreement's milestone list.
    IndexOutOfRange,
    /// The milestone has not been both submitted and client-approved.
    MilestoneNotReady,
    /// The milestone's payment has already been released.
    AlreadyReleased,
}

/// Errors of the per-milestone lifecycle transitions.
#[derive(Clone, Copy, Debug, PartialEq, Eq, Structural)]
pub enum MilestoneError {
    /// The caller is not the party this transition belongs to.
    InvalidSigner,
    /// The milestone index is not a position of the agreement's milestone list.
    IndexOutOfRange,
    /// The freelancer has already submitted this milestone.
    AlreadySubmitted,
    /// The client has already approved this milestone.
    AlreadyApproved,
    /// The freelancer has already confirmed this milestone.
    AlreadyConfirmed,
    /// The milestone has not been submitted yet.
    NotSubmitted,
    /// The milestone has not been client-approved yet.
    NotApproved,
}

/// Errors of the approval-record transitions.
#[derive(Clone, Copy, Debug, PartialEq, Eq, Structural)]
pub enum ErrorCode {
    /// The caller's identity is already in the approved-by set.
    AlreadyApproved,
    /// The approval record has already reached its threshold and signed.
    AlreadySigned,
    /// An approval record needs a threshold of at least one signature.
    InvalidThreshold,
}

/// Errors of the vault deposit transition.
#[derive(Clone, Copy, Debug, PartialEq, Eq, Structural)]
pub enum VaultDepositError {
    /// The vault already holds at least the outstanding milestone total;
    /// no further funding is accepted.
    InsufficientDemand,
    /// The deposit would push the balance over the outstanding milestone
    /// total, or over the numeric range.
    Overflow,
}

/// Errors of the post-termination withdrawal transition.
#[derive(Clone, Copy, Debug, PartialEq, Eq, Structural)]
pub enum VaultWithdrawError {
    /// The agreement has not been terminated yet.
    Unauthorized,
}

} // verus!
