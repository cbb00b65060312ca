use vstd::prelude::*;
use vstd::string::StringExecFns;

verus! {

/// Why an operation on the board was refused. A refused operation changes nothing.
#[derive(Clone, Copy, Debug, PartialEq, Eq, Structural)]
pub enum BountyError {
    /// The title is longer than `TITLE_MAX_LEN` bytes.
    TitleTooLong,
    /// The description is longer than `DESCRIPTION_MAX_LEN` bytes.
    DescriptionTooLong,
    /// The proof is longer than `PROOF_MAX_LEN` bytes.
    ProofTooLong,
    /// The task is not in the status that the operation needs.
    InvalidTaskStatus,
    /// The task has left the status `Created`, so it can no longer be claimed.
    TaskAlreadyClaimed,
    /// The caller is not the party that may perform the operation.
    Unauthorized,
    /// The paying balance does not cover the amount.
    InsufficientFunds,
    /// A bounty of zero was offered.
    InvalidBountyAmount,
}

impl BountyError {
    /// The text shown for each error.
    pub open spec fn message_spec(self) -> Seq<char> {
        match self {
            BountyError::TitleTooLong => "Title too long"@,
            BountyError::DescriptionTooLong => "Description too long"@,
            BountyError::ProofTooLong => "Proof too long"@,
            BountyError::InvalidTaskStatus => "Invalid task status"@,
            BountyError::TaskAlreadyClaimed => "Task already claimed"@,
            BountyError::Unauthorized => "Unauthorized"@,
            BountyError::InsufficientFunds => "Insufficient funds"@,
            BountyError::InvalidBountyAmount => "Bounty amount must be greater than 0"@,
        }
    }

    /// The text shown for this error.
    pub fn message(&self) -> (text: String)
        ensures
            text@ == self.message_spec(),
    {
        match self {
            BountyError::TitleTooLong => String::from_str("Title too long"),
            BountyError::DescriptionTooLong => String::from_str("Description too long"),
            BountyError::ProofTooLong => String::from_str("Proof too long"),
            BountyError::InvalidTaskStatus => String::from_str("Invalid task status"),
            BountyError::TaskAlreadyClaimed => String::from_str("Task already claimed"),
            BountyError::Unauthorized => String::from_str("Unauthorized"),
            BountyError::InsufficientFunds => String::from_str("Insufficient funds"),
            BountyError::InvalidBountyAmount => String::from_str(
                "Bounty amount must be greater than 0",
            ),
        }
    }
}

} // verus!
