use crate::address::Address;
use crate::errors::BountyError;
use crate::state::{
    byte_len, text_len, TaskAccount, TaskAccountView, TaskStatus, TaskView, PROOF_MAX_LEN,
};
use vstd::prelude::*;

verus! {

/// What submitting a proof of completion takes: the caller and the task.
#[derive(Clone, Debug, PartialEq, Eq)]
pub struct SubmitCompletion {
    pub claimer: Address,
    pub task: TaskAccount,
}

/// The task after `caller` has submitted `proof`, or the reason for which the proof is
/// refused. The conditions are tried in this order: the proof's length, the task's
/// status, the caller's identity.
pub open spec fn submit_completion_spec(
    task: TaskAccountView,
    caller: Address,
    proof: Seq<char>,
) -> Result<TaskAccountView, BountyError> {
    if byte_len(proof) > PROOF_MAX_LEN {
        Err(BountyError::ProofTooLong)
    } else if task.task.status != TaskStatus::Claimed {
        Err(BountyError::InvalidTaskStatus)
    } else if task.task.claimer != Some(caller) {
        Err(BountyError::Unauthorized)
    } else {
        Ok(
            TaskAccountView {
                task: TaskView { proof, status: TaskStatus::Completed, ..task.task },
                ..task
            },
        )
    }
}

/// Records the claimer's proof and moves the task to `Completed`.
///
/// A proof of more than `PROOF_MAX_LEN` bytes is refused with `ProofTooLong`, a task
/// that is not `Claimed` with `InvalidTaskStatus`, and a caller who is not the task's
/// claimer with `Unauthorized`, in this order; the task then stays as it was. No funds
/// move.
pub fn submit_completion_handler(ctx: &mut SubmitCompletion, proof: String) -> (r: Result<
    (),
    BountyError,
>)
    ensures
        final(ctx).claimer == old(ctx).claimer,
        match submit_completion_spec(old(ctx).task@, old(ctx).claimer, proof@) {
            Ok(task) => r is Ok && final(ctx).task@ == task,
            Err(e) => r == Err::<(), BountyError>(e) && final(ctx).task@ == old(ctx).task@,
        },
        r is Ok <==> byte_len(proof@) <= PROOF_MAX_LEN && old(ctx).task.task.status
            == TaskStatus::Claimed && old(ctx).task.task.claimer == Some(old(ctx).claimer),
        old(ctx).task.task.claimer != Some(old(ctx).claimer) ==> r is Err && final(ctx).task@
            == old(ctx).task@,
        old(ctx).task@.wf() ==> final(ctx).task@.wf(),
{
    if text_len(proof.as_str()) > PROOF_MAX_LEN {
        return Err(BountyError::ProofTooLong);
    }
    if ctx.task.task.status != TaskStatus::Claimed {
        return Err(BountyError::InvalidTaskStatus);
    }
    let by_claimer = match &ctx.task.task.claimer {
        Some(claimer) => claimer.same(&ctx.claimer),
        None => false,
    };
    if !by_claimer {
        return Err(BountyError::Unauthorized);
    }
    ctx.task.task.proof = proof;
    ctx.task.task.status = TaskStatus::Completed;
    Ok(())
}

} // verus!
