use crate::address::Slot;
use crate::errors::BountyError;
use crate::funds::{transfer, transfer_spec};
use crate::state::{
    byte_len, text_len, BoardAccount, BountyBoard, Task, TaskAccount, TaskAccountView, TaskStatus,
    TaskView, Wallet, DESCRIPTION_MAX_LEN, TITLE_MAX_LEN,
};
use vstd::prelude::*;

verus! {

/// What posting a task takes: the creator, who pays the bounty, the board, and the place
/// derived for the new task.
#[derive(Clone, Copy, Debug, PartialEq, Eq)]
pub struct CreateTask {
    pub creator: Wallet,
    pub board: BoardAccount,
    pub task: Slot,
}

/// Whether the terms of a posting are admissible, and if not, why. The conditions are
/// tried in this order: the title's length, the description's length, the amount.
pub open spec fn create_task_check(
    title: Seq<char>,
    description: Seq<char>,
    bounty_amount: u64,
) -> Result<(), BountyError> {
    if byte_len(title) > TITLE_MAX_LEN {
        Err(BountyError::TitleTooLong)
    } else if byte_len(description) > DESCRIPTION_MAX_LEN {
        Err(BountyError::DescriptionTooLong)
    } else if bounty_amount == 0 {
        Err(BountyError::InvalidBountyAmount)
    } else {
        Ok(())
    }
}

/// Whether the board's two counters can take one more task of this amount.
pub open spec fn counters_fit(board: BountyBoard, bounty_amount: u64) -> bool {
    board.task_count < u64::MAX && board.total_bounties + bounty_amount <= u64::MAX
}

/// The task that a posting creates: numbered by the board's count, unclaimed, without a
/// proof, and holding the whole bounty.
pub open spec fn posted_task(
    ctx: CreateTask,
    title: Seq<char>,
    description: Seq<char>,
    bounty_amount: u64,
) -> TaskAccountView {
    TaskAccountView {
        key: ctx.task.key,
        escrow: bounty_amount,
        task: TaskView {
            creator: ctx.creator.key,
            claimer: None,
            title,
            description,
            bounty_amount,
            status: TaskStatus::Created,
            proof: Seq::empty(),
            task_id: ctx.board.board.task_count,
            bump: ctx.task.bump,
        },
    }
}

/// The creator's wallet and the board after a posting, or the reason for which the
/// posting is refused. Inadmissible terms are refused first, then a creator whose
/// balance does not cover the bounty, with `InsufficientFunds`. Afterwards the bounty
/// has left the creator's balance and both counters have moved on.
pub open spec fn create_task_outcome(
    creator: Wallet,
    board: BoardAccount,
    title: Seq<char>,
    description: Seq<char>,
    bounty_amount: u64,
) -> Result<(Wallet, BoardAccount), BountyError> {
    match create_task_check(title, description, bounty_amount) {
        Err(e) => Err(e),
        Ok(()) => match transfer_spec(creator.balance, 0, bounty_amount) {
            Err(e) => Err(e),
            Ok(balances) => Ok(
                (
                    Wallet { balance: balances.0, ..creator },
                    BoardAccount {
                        board: BountyBoard {
                            task_count: (board.board.task_count + 1) as u64,
                            total_bounties: (board.board.total_bounties + bounty_amount) as u64,
                            ..board.board
                        },
                        ..board
                    },
                ),
            ),
        },
    }
}

/// What a posting leads to: the creator and board afterwards together with the new
/// task, or the reason for which it is refused.
pub open spec fn create_task_spec(
    ctx: CreateTask,
    title: Seq<char>,
    description: Seq<char>,
    bounty_amount: u64,
) -> Result<(CreateTask, TaskAccountView), BountyError> {
    match create_task_outcome(ctx.creator, ctx.board, title, description, bounty_amount) {
        Err(e) => Err(e),
        Ok(after) => Ok(
            (
                CreateTask { creator: after.0, board: after.1, task: ctx.task },
                posted_task(ctx, title, description, bounty_amount),
            ),
        ),
    }
}

/// Tells whether the board's two counters can take one more task of this amount.
pub fn can_count(board: &BountyBoard, bounty_amount: u64) -> (fits: bool)
    ensures
        fits == counters_fit(*board, bounty_amount),
{
    board.task_count < u64::MAX && board.total_bounties <= u64::MAX - bounty_amount
}

/// Tells whether the terms of a posting are admissible, and if not, why.
pub fn check_create_task(title: &str, description: &str, bounty_amount: u64) -> (r: Result<
    (),
    BountyError,
>)
    ensures
        r == create_task_check(title@, description@, bounty_amount),
{
    if text_len(title) > TITLE_MAX_LEN {
        return Err(BountyError::TitleTooLong);
    }
    if text_len(description) > DESCRIPTION_MAX_LEN {
        return Err(BountyError::DescriptionTooLong);
    }
    if bounty_amount == 0 {
        return Err(BountyError::InvalidBountyAmount);
    }
    Ok(())
}

/// Posts a task on the board and puts its bounty in escrow.
///
/// The title may take at most `TITLE_MAX_LEN` bytes, the description at most
/// `DESCRIPTION_MAX_LEN`, the bounty must be positive and the creator must be able to
/// pay it; the first of these that fails decides the error, and then neither the
/// creator nor the board changes and no task comes back. Otherwise the new task is
/// returned, numbered by the board's count, the count goes up by one, the board's total
/// by the bounty, and the bounty moves from the creator's balance into the task's
/// escrow.
///
/// Where the terms are admissible, the board's counters must be able to take the task.
pub fn create_task_handler(
    ctx: &mut CreateTask,
    title: String,
    description: String,
    bounty_amount: u64,
) -> (r: Result<TaskAccount, BountyError>)
    requires
        create_task_check(title@, description@, bounty_amount) is Ok ==> counters_fit(
            old(ctx).board.board,
            bounty_amount,
        ),
    ensures
        match create_task_spec(*old(ctx), title@, description@, bounty_amount) {
            Ok(after) => r matches Ok(task) && task@ == after.1 && *final(ctx) == after.0,
            Err(e) => r == Err::<TaskAccount, BountyError>(e) && *final(ctx) == *old(ctx),
        },
        r is Ok <==> byte_len(title@) <= TITLE_MAX_LEN && byte_len(description@)
            <= DESCRIPTION_MAX_LEN && bounty_amount > 0 && old(ctx).creator.balance
            >= bounty_amount,
        r matches Ok(task) ==> {
            &&& task@.wf()
            &&& task.escrow == bounty_amount
            &&& task.task.task_id == old(ctx).board.board.task_count
            &&& final(ctx).board.board.task_count == old(ctx).board.board.task_count + 1
            &&& final(ctx).board.board.total_bounties == old(ctx).board.board.total_bounties
                + bounty_amount
            &&& final(ctx).creator.balance + task.escrow == old(ctx).creator.balance
        },
        bounty_amount == 0 ==> r is Err,
        bounty_amount == 0 && byte_len(title@) <= TITLE_MAX_LEN && byte_len(description@)
            <= DESCRIPTION_MAX_LEN ==> r == Err::<TaskAccount, BountyError>(
            BountyError::InvalidBountyAmount,
        ),
        r is Err ==> *final(ctx) == *old(ctx),
{
    match check_create_task(title.as_str(), description.as_str(), bounty_amount) {
        Err(e) => {
            return Err(e);
        },
        Ok(()) => {},
    }
    let mut escrow: u64 = 0;
    match transfer(&mut ctx.creator.balance, &mut escrow, bounty_amount) {
        Err(e) => {
            return Err(e);
        },
        Ok(()) => {},
    }
    let task = Task {
        creator: ctx.creator.key,
        claimer: None,
        title,
        description,
        bounty_amount,
        status: TaskStatus::Created,
        proof: String::new(),
        task_id: ctx.board.board.task_count,
        bump: ctx.task.bump,
    };
    ctx.board.board.task_count = ctx.board.board.task_count + 1;
    ctx.board.board.total_bounties = ctx.board.board.total_bounties + bounty_amount;
    Ok(TaskAccount { key: ctx.task.key, escrow, task })
}

} // verus!
