use crate::address::Address;
use crate::errors::BountyError;
use crate::state::{TaskAccount, TaskAccountView, TaskStatus, TaskView};
use vstd::prelude::*;

verus! {

/// What claiming a task takes: the caller and the task.
#[derive(Clone, Debug, PartialEq, Eq)]
pub struct ClaimTask {
    pub claimer: Address,
    pub task: TaskAccount,
}

/// The task after `caller` has claimed it, or `TaskAlreadyClaimed` where its status is
/// anything but `Created`.
pub open spec fn claim_task_spec(task: TaskAccountView, caller: Address) -> Result<
    TaskAccountView,
    BountyError,
> {
    if task.task.status != TaskStatus::Created {
        Err(BountyError::TaskAlreadyClaimed)
    } else {
        Ok(
            TaskAccountView {
                task: TaskView { claimer: Some(caller), status: TaskStatus::Claimed, ..task.task },
                ..task
            },
        )
    }
}

/// Records the caller as the task's claimer and moves the task to `Claimed`. A task that
/// has left `Created` is refused with `TaskAlreadyClaimed` and stays as it was. No funds
/// move.
pub fn claim_task_handler(ctx: &mut ClaimTask) -> (r: Result<(), BountyError>)
    ensures
        final(ctx).claimer == old(ctx).claimer,
        match claim_task_spec(old(ctx).task@, old(ctx).claimer) {
            Ok(task) => r is Ok && final(ctx).task@ == task,
            Err(e) => r == Err::<(), BountyError>(e) && final(ctx).task@ == old(ctx).task@,
        },
        r is Ok <==> old(ctx).task.task.status == TaskStatus::Created,
        old(ctx).task@.wf() ==> final(ctx).task@.wf(),
{
    if ctx.task.task.status != TaskStatus::Created {
        return Err(BountyError::TaskAlreadyClaimed);
    }
    ctx.task.task.claimer = Some(ctx.claimer);
    ctx.task.task.status = TaskStatus::Claimed;
    Ok(())
}

} // verus!
