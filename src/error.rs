use vstd::prelude::*;

verus! {

/// Every failure an engine operation can report.
#[derive(Copy, Clone, Debug, PartialEq, Eq, Structural, PartialOrd, Ord)]
pub enum Error {
    /// Group does not exist
    GroupNotFound,
    /// Group is not active
    GroupNotActive,
    /// Group is already completed
    GroupCompleted,
    /// Invalid group status
    InvalidGroupStatus,
    /// Member count exceeds maximum
    MemberCountExceeded,
    /// Unauthorized access
    Unauthorized,
    /// The contract failed to transfer funds to the recipient
    FailedToTransferToRecipient,
    /// The member failed to transfer funds to the contract
    FailedToTransferFromMember,
    /// The contract has no balance to transfer
    NoBalanceToTransfer,
}

pub open spec fn error_code(e: Error) -> u32 {
    match e {
        Error::GroupNotFound => 1,
        Error::GroupNotActive => 2,
        Error::GroupCompleted => 3,
        Error::InvalidGroupStatus => 4,
        Error::MemberCountExceeded => 5,
        Error::Unauthorized => 6,
        Error::FailedToTransferToRecipient => 7,
        Error::FailedToTransferFromMember => 8,
        Error::NoBalanceToTransfer => 9,
    }
}

impl Error {
    /// The stable numeric code of this error, as reported to the host.
    pub fn code(&self) -> (r: u32)
        ensures
            r == error_code(*self),
            1 <= r <= 9,
    {
        match self {
            Error::GroupNotFound => 1,
            Error::GroupNotActive => 2,
            Error::GroupCompleted => 3,
            Error::InvalidGroupStatus => 4,
            Error::MemberCountExceeded => 5,
            Error::Unauthorized => 6,
            Error::FailedToTransferToRecipient => 7,
            Error::FailedToTransferFromMember => 8,
            Error::NoBalanceToTransfer => 9,
        }
    }
}

} // verus!
