use vstd::prelude::*;

verus! {

/// Why an operation was rejected.
#[derive(Clone, Copy, Debug, PartialEq, Eq, Structural)]
pub enum ErrorCode {
    /// The platform has already been initialized.
    AlreadyInitialized,
    /// The title is longer than the limit.
    TitleTooLong,
    /// The description is longer than the limit.
    DescriptionTooLong,
    /// The image URL is longer than the limit.
    ImageUrlTooLong,
    /// The goal is not above the minimum unit.
    InvalidGoalAmount,
    /// The caller is not the one allowed to do this.
    UnauthorisedAccess,
    /// The record at hand is not the campaign that was asked for.
    CampaignNotFound,
    /// The campaign has been deleted.
    InActiveCampaign,
    /// The donation is not above the minimum unit.
    InvalidDonationAmount,
    /// The campaign has already raised its goal.
    CampaignGoalReached,
    /// The withdrawal is not above the minimum unit.
    InvalidWithdrawAmount,
    /// The campaign does not hold enough to pay the withdrawal.
    InsufficientFund,
    /// The fee recipient is not the platform's address.
    InvalidPlatformAddress,
    /// The fee percentage is outside the allowed range.
    InvalidPlatformFee,
}

/// How an operation that asks the runtime to move currency can fail: the
/// request was rejected by the rules, or the runtime could not carry out the
/// transfer and reported `E`.
#[derive(Debug, PartialEq, Eq)]
pub enum Failure<E> {
    /// The rules rejected the request.
    Rejected(ErrorCode),
    /// The runtime's transfer failed with this error.
    Transfer(E),
}

} // verus!
