use crate::address::Address;
use crate::errors::BountyError;
use crate::funds::{transfer, transfer_spec};
use crate::state::{TaskAccount, TaskAccountView, TaskStatus, TaskView, Wallet};
use vstd::prelude::*;

verus! {

/// What rejecting a completion takes: the caller, whose wallet takes the refund, and
/// the task.
#[derive(Clone, Debug, PartialEq, Eq)]
pub struct RejectCompletion {
    pub creator: Wallet,
    pub task: TaskAccount,
}

/// Whether `caller` may reject the completion, and if not, why. The conditions are
/// tried in this order: the caller is the task's creator, the task is `Completed`.
pub open spec fn reject_completion_check(task: TaskAccountView, caller: Address) -> Result<
    (),
    BountyError,
> {
    if task.task.creator != caller {
        Err(BountyError::Unauthorized)
    } else if task.task.status != TaskStatus::Completed {
        Err(BountyError::InvalidTaskStatus)
    } else {
        Ok(())
    }
}

/// The task and the caller's wallet after the caller has rejected the completion, or
/// the reason for which the rejection is refused. A rejection that may not be given is
/// refused first, then an escrow that does not cover the bounty, with
/// `InsufficientFunds`.
pub open spec fn reject_completion_spec(task: TaskAccountView, caller: Wallet) -> Result<
    (TaskAccountView, Wallet),
    BountyError,
> {
    match reject_completion_check(task, caller.key) {
        Err(e) => Err(e),
        Ok(()) => match transfer_spec(task.escrow, caller.balance, task.task.bounty_amount) {
            Err(e) => Err(e),
            Ok(balances) => Ok(
                (
                    TaskAccountView {
                        escrow: balances.0,
                        task: TaskView { status: TaskStatus::Rejected, ..task.task },
                        ..task
                    },
                    Wallet { balance: balances.1, ..caller },
                ),
            ),
        },
    }
}

/// Tells whether the caller may reject the completion, and if not, why.
pub fn check_reject_completion(ctx: &RejectCompletion) -> (r: Result<(), BountyError>)
    ensures
        r == reject_completion_check(ctx.task@, ctx.creator.key),
{
    if !ctx.task.task.creator.same(&ctx.creator.key) {
        return Err(BountyError::Unauthorized);
    }
    if ctx.task.task.status != TaskStatus::Completed {
        return Err(BountyError::InvalidTaskStatus);
    }
    Ok(())
}

/// Refunds the bounty out of the task's escrow to its creator and moves the task to
/// `Rejected`.
///
/// A caller who is not the task's creator is refused with `Unauthorized`, a task that
/// is not `Completed` with `InvalidTaskStatus`, and an escrow below the bounty with
/// `InsufficientFunds`, in this order; the task and the wallet then stay as they were.
///
/// Where the rejection may be given, the caller's wallet must be able to take the
/// bounty.
pub fn reject_completion_handler(ctx: &mut RejectCompletion) -> (r: Result<(), BountyError>)
    requires
        reject_completion_check(old(ctx).task@, old(ctx).creator.key) is Ok ==> old(
            ctx,
        ).creator.balance + old(ctx).task.task.bounty_amount <= u64::MAX,
    ensures
        match reject_completion_spec(old(ctx).task@, old(ctx).creator) {
            Ok(after) => r is Ok && final(ctx).task@ == after.0 && final(ctx).creator == after.1,
            Err(e) => r == Err::<(), BountyError>(e) && final(ctx).task@ == old(ctx).task@
                && final(ctx).creator == old(ctx).creator,
        },
        r is Ok ==> {
            &&& final(ctx).task.task.status == TaskStatus::Rejected
            &&& final(ctx).task.escrow == old(ctx).task.escrow - old(ctx).task.task.bounty_amount
            &&& final(ctx).creator.balance == old(ctx).creator.balance
                + old(ctx).task.task.bounty_amount
            &&& old(ctx).task.task.creator == old(ctx).creator.key
        },
        final(ctx).task.escrow + final(ctx).creator.balance == old(ctx).task.escrow + old(
            ctx,
        ).creator.balance,
        old(ctx).task@.wf() ==> final(ctx).task@.wf(),
{
    match check_reject_completion(ctx) {
        Err(e) => {
            return Err(e);
        },
        Ok(()) => {},
    }
    match transfer(&mut ctx.task.escrow, &mut ctx.creator.balance, ctx.task.task.bounty_amount) {
        Err(e) => {
            return Err(e);
        },
        Ok(()) => {},
    }
    ctx.task.task.status = TaskStatus::Rejected;
    Ok(())
}

} // verus!
