use crate::address::Address;
use crate::errors::BountyError;
use crate::funds::{transfer, transfer_spec};
use crate::state::{TaskAccount, TaskAccountView, TaskStatus, TaskView, Wallet};
use vstd::prelude::*;

verus! {

/// What approving a completion takes: the caller, the task, and the wallet that is to
/// receive the bounty.
#[derive(Clone, Debug, PartialEq, Eq)]
pub struct ApproveCompletion {
    pub creator: Address,
    pub task: TaskAccount,
    pub claimer: Wallet,
}

/// Whether `caller` may approve the completion and have the bounty paid into the
/// wallet of `recipient`, and if not, why. The conditions are tried in this order: the
/// caller is the task's creator, the task is `Completed`, the receiving wallet is that
/// of the task's claimer.
pub open spec fn approve_completion_check(
    task: TaskAccountView,
    caller: Address,
    recipient: Address,
) -> Result<(), BountyError> {
    if task.task.creator != caller {
        Err(BountyError::Unauthorized)
    } else if task.task.status != TaskStatus::Completed {
        Err(BountyError::InvalidTaskStatus)
    } else if task.task.claimer != Some(recipient) {
        Err(BountyError::Unauthorized)
    } else {
        Ok(())
    }
}

/// The task and the receiving wallet after `caller` has approved the completion, or the
/// reason for which the approval is refused. An approval that may not be given is
/// refused first, then an escrow that does not cover the bounty, with
/// `InsufficientFunds`.
pub open spec fn approve_completion_spec(
    task: TaskAccountView,
    caller: Address,
    recipient: Wallet,
) -> Result<(TaskAccountView, Wallet), BountyError> {
    match approve_completion_check(task, caller, recipient.key) {
        Err(e) => Err(e),
        Ok(()) => match transfer_spec(task.escrow, recipient.balance, task.task.bounty_amount) {
            Err(e) => Err(e),
            Ok(balances) => Ok(
                (
                    TaskAccountView {
                        escrow: balances.0,
                        task: TaskView { status: TaskStatus::Approved, ..task.task },
                        ..task
                    },
                    Wallet { balance: balances.1, ..recipient },
                ),
            ),
        },
    }
}

/// Tells whether the caller may approve the completion and have the bounty paid into
/// the receiving wallet, and if not, why.
pub fn check_approve_completion(ctx: &ApproveCompletion) -> (r: Result<(), BountyError>)
    ensures
        r == approve_completion_check(ctx.task@, ctx.creator, ctx.claimer.key),
{
    if !ctx.task.task.creator.same(&ctx.creator) {
        return Err(BountyError::Unauthorized);
    }
    if ctx.task.task.status != TaskStatus::Completed {
        return Err(BountyError::InvalidTaskStatus);
    }
    let to_claimer = match &ctx.task.task.claimer {
        Some(claimer) => claimer.same(&ctx.claimer.key),
        None => false,
    };
    if !to_claimer {
        return Err(BountyError::Unauthorized);
    }
    Ok(())
}

/// Pays the bounty out of the task's escrow to its claimer and moves the task to
/// `Approved`.
///
/// A caller who is not the task's creator is refused with `Unauthorized`, a task that
/// is not `Completed` with `InvalidTaskStatus`, a task without a claimer or a receiving
/// wallet that is not the claimer's with `Unauthorized`, and an escrow below the bounty
/// with `InsufficientFunds`, in this order; the task and the wallet then stay as they
/// were.
///
/// Where the approval may be given, the receiving wallet must be able to take the
/// bounty.
pub fn approve_completion_handler(ctx: &mut ApproveCompletion) -> (r: Result<(), BountyError>)
    requires
        approve_completion_check(old(ctx).task@, old(ctx).creator, old(ctx).claimer.key) is Ok
            ==> old(ctx).claimer.balance + old(ctx).task.task.bounty_amount <= u64::MAX,
    ensures
        final(ctx).creator == old(ctx).creator,
        match approve_completion_spec(old(ctx).task@, old(ctx).creator, old(ctx).claimer) {
            Ok(after) => r is Ok && final(ctx).task@ == after.0 && final(ctx).claimer == after.1,
            Err(e) => r == Err::<(), BountyError>(e) && final(ctx).task@ == old(ctx).task@
                && final(ctx).claimer == old(ctx).claimer,
        },
        r is Ok ==> {
            &&& final(ctx).task.task.status == TaskStatus::Approved
            &&& final(ctx).task.escrow == old(ctx).task.escrow - old(ctx).task.task.bounty_amount
            &&& final(ctx).claimer.balance == old(ctx).claimer.balance
                + old(ctx).task.task.bounty_amount
            &&& old(ctx).task.task.claimer == Some(old(ctx).claimer.key)
        },
        final(ctx).task.escrow + final(ctx).claimer.balance == old(ctx).task.escrow + old(
            ctx,
        ).claimer.balance,
        old(ctx).task@.wf() ==> final(ctx).task@.wf(),
{
    match check_approve_completion(ctx) {
        Err(e) => {
            return Err(e);
        },
        Ok(()) => {},
    }
    match transfer(&mut ctx.task.escrow, &mut ctx.claimer.balance, ctx.task.task.bounty_amount) {
        Err(e) => {
            return Err(e);
        },
        Ok(()) => {},
    }
    ctx.task.task.status = TaskStatus::Approved;
    Ok(())
}

} // verus!
