use crate::address::Address;
use crate::errors::BountyError;
use crate::instructions::approve_completion::approve_completion_spec;
use crate::instructions::claim_task::claim_task_spec;
use crate::instructions::reject_completion::reject_completion_spec;
use crate::instructions::submit_completion::submit_completion_spec;
use crate::state::{byte_len, TaskAccountView, TaskStatus, Wallet, PROOF_MAX_LEN};
use vstd::prelude::*;

verus! {

/// An attempt to act on a posted task, with what the caller brings to it: an identity,
/// or, where the caller is to be refunded, a wallet.
pub enum Operation {
    Claim { caller: Address },
    Submit { caller: Address, proof: Seq<char> },
    Approve { caller: Address, recipient: Wallet },
    Reject { wallet: Wallet },
}

impl Operation {
    /// The task after the attempt, or the reason for which it is refused.
    pub open spec fn outcome(self, task: TaskAccountView) -> Result<TaskAccountView, BountyError> {
        match self {
            Operation::Claim { caller } => claim_task_spec(task, caller),
            Operation::Submit { caller, proof } => submit_completion_spec(task, caller, proof),
            Operation::Approve { caller, recipient } => match approve_completion_spec(
                task,
                caller,
                recipient,
            ) {
                Ok(after) => Ok(after.0),
                Err(e) => Err(e),
            },
            Operation::Reject { wallet } => match reject_completion_spec(task, wallet) {
                Ok(after) => Ok(after.0),
                Err(e) => Err(e),
            },
        }
    }

    /// The task as the attempt leaves it: a refused attempt leaves it as it was.
    pub open spec fn apply(self, task: TaskAccountView) -> TaskAccountView {
        match self.outcome(task) {
            Ok(after) => after,
            Err(_) => task,
        }
    }
}

/// The task after a series of attempts, made one after the other.
pub open spec fn history(task: TaskAccountView, attempts: Seq<Operation>) -> TaskAccountView
    decreases attempts.len(),
{
    if attempts.len() == 0 {
        task
    } else {
        attempts.last().apply(history(task, attempts.drop_last()))
    }
}

/// A task is claimed at most once: after a successful claim, a further claim by any
/// caller is refused with `TaskAlreadyClaimed`.
pub proof fn law_claimed_once(task: TaskAccountView, first: Address, second: Address)
    ensures
        claim_task_spec(task, first) matches Ok(claimed) ==> claimed.task.claimer == Some(first)
            && claim_task_spec(claimed, second) == Err::<TaskAccountView, BountyError>(
            BountyError::TaskAlreadyClaimed,
        ),
{
}

/// Once a task has left `Created`, no attempt changes who its claimer is.
pub proof fn law_claimer_is_permanent(task: TaskAccountView, attempts: Seq<Operation>)
    requires
        task.task.status != TaskStatus::Created,
    ensures
        history(task, attempts).task.claimer == task.task.claimer,
        history(task, attempts).task.status != TaskStatus::Created,
    decreases attempts.len(),
{
    if attempts.len() > 0 {
        law_claimer_is_permanent(task, attempts.drop_last());
    }
}

/// A proof is set once: from `Completed` on, no attempt changes it.
pub proof fn law_proof_is_set_once(task: TaskAccountView, attempts: Seq<Operation>)
    requires
        task.task.status.rank() >= 2,
    ensures
        history(task, attempts).task.proof == task.task.proof,
        history(task, attempts).task.status.rank() >= 2,
    decreases attempts.len(),
{
    if attempts.len() > 0 {
        law_proof_is_set_once(task, attempts.drop_last());
    }
}

/// A proof offered by anyone but the task's claimer is refused and the task stays as it
/// was; where the proof has an admissible length and the task is `Claimed`, the refusal
/// is `Unauthorized`.
pub proof fn law_only_the_claimer_submits(task: TaskAccountView, caller: Address, proof: Seq<char>)
    requires
        task.task.claimer != Some(caller),
    ensures
        submit_completion_spec(task, caller, proof) is Err,
        (Operation::Submit { caller, proof }).apply(task) == task,
        byte_len(proof) <= PROOF_MAX_LEN && task.task.status == TaskStatus::Claimed
            ==> submit_completion_spec(task, caller, proof) == Err::<TaskAccountView, BountyError>(
            BountyError::Unauthorized,
        ),
{
}

/// An approval moves exactly the bounty from the escrow to the claimer's wallet, and
/// does so once: every later attempt on the task is refused, a further approval by the
/// creator with `InvalidTaskStatus`.
pub proof fn law_approval_pays_once(
    task: TaskAccountView,
    caller: Address,
    recipient: Wallet,
    later: Operation,
    other: Wallet,
)
    requires
        approve_completion_spec(task, caller, recipient) is Ok,
        recipient.balance + task.task.bounty_amount <= u64::MAX,
    ensures
        ({
            let after = approve_completion_spec(task, caller, recipient)->Ok_0;
            &&& task.task.claimer == Some(recipient.key)
            &&& after.0.escrow == task.escrow - task.task.bounty_amount
            &&& after.1.balance == recipient.balance + task.task.bounty_amount
            &&& after.1.key == recipient.key
            &&& after.0.task.status == TaskStatus::Approved
            &&& later.outcome(after.0) is Err
            &&& approve_completion_spec(after.0, caller, other) == Err::<
                (TaskAccountView, Wallet),
                BountyError,
            >(BountyError::InvalidTaskStatus)
        }),
{
}

/// A rejection moves exactly the bounty from the escrow back to the creator's wallet,
/// and does so once: every later attempt on the task is refused, an approval by the
/// creator with `InvalidTaskStatus`.
pub proof fn law_rejection_refunds_once(
    task: TaskAccountView,
    caller: Wallet,
    later: Operation,
    other: Wallet,
)
    requires
        reject_completion_spec(task, caller) is Ok,
        caller.balance + task.task.bounty_amount <= u64::MAX,
    ensures
        ({
            let after = reject_completion_spec(task, caller)->Ok_0;
            &&& task.task.creator == caller.key
            &&& after.0.escrow == task.escrow - task.task.bounty_amount
            &&& after.1.balance == caller.balance + task.task.bounty_amount
            &&& after.1.key == caller.key
            &&& after.0.task.status == TaskStatus::Rejected
            &&& later.outcome(after.0) is Err
            &&& approve_completion_spec(after.0, caller.key, other) == Err::<
                (TaskAccountView, Wallet),
                BountyError,
            >(BountyError::InvalidTaskStatus)
        }),
{
}

/// An approved or rejected task is read-only: every attempt on it is refused, an
/// approval or rejection by its creator with `InvalidTaskStatus`, and whatever is
/// attempted, in whatever number, the task stays as it is.
pub proof fn law_final_task_is_read_only(task: TaskAccountView, attempts: Seq<Operation>)
    requires
        task.task.status.is_final(),
    ensures
        history(task, attempts) == task,
        forall|attempt: Operation| (#[trigger] attempt.outcome(task)) is Err,
        forall|recipient: Wallet| #[trigger]
            approve_completion_spec(task, task.task.creator, recipient) == Err::<
                (TaskAccountView, Wallet),
                BountyError,
            >(BountyError::InvalidTaskStatus),
        forall|caller: Wallet|
            caller.key == task.task.creator ==> #[trigger] reject_completion_spec(task, caller)
                == Err::<(TaskAccountView, Wallet), BountyError>(BountyError::InvalidTaskStatus),
    decreases attempts.len(),
{
    if attempts.len() > 0 {
        law_final_task_is_read_only(task, attempts.drop_last());
    }
}

/// An attempt that succeeds moves the task along one edge of the lifecycle, and no
/// attempt changes anything else that was fixed when the task was posted.
pub proof fn law_attempt_follows_lifecycle(task: TaskAccountView, attempt: Operation)
    ensures
        attempt.outcome(task) is Ok ==> task.task.status.leads_to(attempt.apply(task).task.status),
        attempt.outcome(task) is Err ==> attempt.apply(task) == task,
        attempt.apply(task).key == task.key,
        attempt.apply(task).task.creator == task.task.creator,
        attempt.apply(task).task.title == task.task.title,
        attempt.apply(task).task.description == task.task.description,
        attempt.apply(task).task.bounty_amount == task.task.bounty_amount,
        attempt.apply(task).task.task_id == task.task.task_id,
        attempt.apply(task).task.bump == task.task.bump,
{
}

/// Over any series of attempts the status never moves back, and what was fixed when the
/// task was posted stays fixed.
pub proof fn law_status_moves_forward(task: TaskAccountView, attempts: Seq<Operation>)
    ensures
        history(task, attempts).task.status.rank() >= task.task.status.rank(),
        history(task, attempts).task.status.rank() == task.task.status.rank() ==> history(
            task,
            attempts,
        ) == task,
        history(task, attempts).key == task.key,
        history(task, attempts).task.creator == task.task.creator,
        history(task, attempts).task.title == task.task.title,
        history(task, attempts).task.description == task.task.description,
        history(task, attempts).task.bounty_amount == task.task.bounty_amount,
        history(task, attempts).task.task_id == task.task.task_id,
        history(task, attempts).task.bump == task.task.bump,
    decreases attempts.len(),
{
    if attempts.len() > 0 {
        let before = history(task, attempts.drop_last());
        law_status_moves_forward(task, attempts.drop_last());
        law_attempt_follows_lifecycle(before, attempts.last());
    }
}

/// A well-formed task account stays well formed over any series of attempts: the
/// bounty is positive, the texts keep their bounds, a claimer is recorded exactly from
/// the first claim on, and the escrow holds the whole bounty until the task is approved
/// or rejected and nothing afterwards.
pub proof fn law_history_keeps_invariants(task: TaskAccountView, attempts: Seq<Operation>)
    requires
        task.wf(),
    ensures
        history(task, attempts).wf(),
    decreases attempts.len(),
{
    if attempts.len() > 0 {
        law_history_keeps_invariants(task, attempts.drop_last());
    }
}

} // verus!
