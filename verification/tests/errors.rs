use bounty_board::errors::BountyError;

#[test]
fn every_error_has_its_message() {
    assert_eq!(BountyError::TitleTooLong.message(), "Title too long");
    assert_eq!(BountyError::DescriptionTooLong.message(), "Description too long");
    assert_eq!(BountyError::ProofTooLong.message(), "Proof too long");
    assert_eq!(BountyError::InvalidTaskStatus.message(), "Invalid task status");
    assert_eq!(BountyError::TaskAlreadyClaimed.message(), "Task already claimed");
    assert_eq!(BountyError::Unauthorized.message(), "Unauthorized");
    assert_eq!(BountyError::InsufficientFunds.message(), "Insufficient funds");
    assert_eq!(
        BountyError::InvalidBountyAmount.message(),
        "Bounty amount must be greater than 0"
    );
}

#[test]
fn errors_are_told_apart() {
    let all = [
        BountyError::TitleTooLong,
        BountyError::DescriptionTooLong,
        BountyError::ProofTooLong,
        BountyError::InvalidTaskStatus,
        BountyError::TaskAlreadyClaimed,
        BountyError::Unauthorized,
        BountyError::InsufficientFunds,
        BountyError::InvalidBountyAmount,
    ];
    for (i, a) in all.iter().enumerate() {
        for (j, b) in all.iter().enumerate() {
            assert_eq!(a == b, i == j);
            assert_eq!(a.message() == b.message(), i == j);
        }
    }
}
