//! A bounty board: a registry of paid tasks.
//!
//! A creator posts a task on a board and puts its bounty in escrow; a claimer takes the
//! task on and submits a proof of completion; the creator then approves, which pays the
//! claimer, or rejects, which refunds the creator. A task moves along
//! `Created -> Claimed -> Completed -> Approved | Rejected` and never back.
//!
//! Every operation works on plain values: the records, the identities of the parties
//! and the balances involved. It either takes effect as a whole or is refused with a
//! [`errors::BountyError`] and changes nothing. Keeping the records, authenticating the
//! caller and running an operation as one transaction are left to whoever calls.
//!
//! - [`address`]: identities, and the places that are derived for boards and tasks.
//! - [`state`]: the records and what holds of them at all times.
//! - [`funds`]: moving an amount between two balances.
//! - [`instructions`]: the six operations, each with its context.
//! - [`lifecycle`], [`postings`]: what holds over any series of operations.
//!
//! The functions of this module run an operation from the caller's own values, deriving
//! the place of a new record where one is created.

use vstd::prelude::*;

pub mod address;
pub mod errors;
pub mod funds;
pub mod instructions;
pub mod lifecycle;
pub mod postings;
pub mod state;

use crate::address::{
    board_address, board_seeds, is_derived, program_address, task_address, task_seeds, Address,
    Slot,
};
use crate::errors::BountyError;
use crate::instructions::approve_completion::{
    approve_completion_check, approve_completion_handler, approve_completion_spec,
    ApproveCompletion,
};
use crate::instructions::claim_task::{claim_task_handler, claim_task_spec, ClaimTask};
use crate::instructions::create_task::{
    counters_fit, create_task_check, create_task_handler, create_task_outcome, posted_task,
    CreateTask,
};
use crate::instructions::initialize_board::{initialize_board_handler, new_board, InitializeBoard};
use crate::instructions::reject_completion::{
    reject_completion_check, reject_completion_handler, reject_completion_spec, RejectCompletion,
};
use crate::instructions::submit_completion::{
    submit_completion_handler, submit_completion_spec, SubmitCompletion,
};
use crate::state::{BoardAccount, TaskAccount, Wallet};

verus! {

/// Opens the board of `authority` under the program `program_id`, at the address
/// derived from the tag `BOARD_SEED` and the authority's identity.
///
/// Where no address can be derived there is no result. Otherwise the result is that of
/// `initialize_board_handler` for the derived place.
pub fn initialize_board(program_id: &Address, authority: Address) -> (r: Option<
    Result<BoardAccount, BountyError>,
>)
    ensures
        match r {
            Some(opened) => {
                &&& opened matches Ok(board)
                &&& is_derived(
                    board_seeds(authority),
                    *program_id,
                    Some(Slot { key: board.key, bump: board.board.bump }),
                )
                &&& board == new_board(authority, Slot { key: board.key, bump: board.board.bump })
            },
            None => is_derived(board_seeds(authority), *program_id, None),
        },
{
    match board_address(program_id, &authority) {
        None => None,
        Some(slot) => Some(initialize_board_handler(InitializeBoard { authority, board: slot })),
    }
}

/// Posts a task of `creator` on `board`, at the address derived from the tag
/// `TASK_SEED`, the board's address and the board's count of tasks.
///
/// Where no address can be derived there is no result, and neither the creator nor the
/// board changes. Otherwise the result and the changes are those of
/// `create_task_handler` for the derived place.
pub fn create_task(
    program_id: &Address,
    creator: &mut Wallet,
    board: &mut BoardAccount,
    title: String,
    description: String,
    bounty_amount: u64,
) -> (r: Option<Result<TaskAccount, BountyError>>)
    requires
        create_task_check(title@, description@, bounty_amount) is Ok ==> counters_fit(
            old(board).board,
            bounty_amount,
        ),
    ensures
        r is None <==> program_address(
            task_seeds(old(board).key, old(board).board.task_count),
            program_id@,
        ) is None,
        match r {
            Some(posted) => match create_task_outcome(
                *old(creator),
                *old(board),
                title@,
                description@,
                bounty_amount,
            ) {
                Ok(after) => {
                    &&& posted matches Ok(task)
                    &&& is_derived(
                        task_seeds(old(board).key, old(board).board.task_count),
                        *program_id,
                        Some(Slot { key: task.key, bump: task.task.bump }),
                    )
                    &&& task@ == posted_task(
                        CreateTask {
                            creator: *old(creator),
                            board: *old(board),
                            task: Slot { key: task.key, bump: task.task.bump },
                        },
                        title@,
                        description@,
                        bounty_amount,
                    )
                    &&& *final(creator) == after.0
                    &&& *final(board) == after.1
                },
                Err(e) => {
                    &&& posted == Err::<TaskAccount, BountyError>(e)
                    &&& *final(creator) == *old(creator)
                    &&& *final(board) == *old(board)
                },
            },
            None => *final(creator) == *old(creator) && *final(board) == *old(board),
        },
{
    match task_address(program_id, &board.key, board.board.task_count) {
        None => None,
        Some(slot) => {
            let mut ctx = CreateTask { creator: *creator, board: *board, task: slot };
            let posted = create_task_handler(&mut ctx, title, description, bounty_amount);
            *creator = ctx.creator;
            *board = ctx.board;
            Some(posted)
        },
    }
}

/// Claims a task for the caller: see `claim_task_handler`.
pub fn claim_task(ctx: &mut ClaimTask) -> (r: Result<(), BountyError>)
    ensures
        final(ctx).claimer == old(ctx).claimer,
        match claim_task_spec(old(ctx).task@, old(ctx).claimer) {
            Ok(task) => r is Ok && final(ctx).task@ == task,
            Err(e) => r == Err::<(), BountyError>(e) && final(ctx).task@ == old(ctx).task@,
        },
{
    claim_task_handler(ctx)
}

/// Submits the claimer's proof of completion: see `submit_completion_handler`.
pub fn submit_completion(ctx: &mut SubmitCompletion, proof: String) -> (r: Result<(), BountyError>)
    ensures
        final(ctx).claimer == old(ctx).claimer,
        match submit_completion_spec(old(ctx).task@, old(ctx).claimer, proof@) {
            Ok(task) => r is Ok && final(ctx).task@ == task,
            Err(e) => r == Err::<(), BountyError>(e) && final(ctx).task@ == old(ctx).task@,
        },
{
    submit_completion_handler(ctx, proof)
}

/// Approves a completion and pays the claimer: see `approve_completion_handler`.
pub fn approve_completion(ctx: &mut ApproveCompletion) -> (r: Result<(), BountyError>)
    requires
        approve_completion_check(old(ctx).task@, old(ctx).creator, old(ctx).claimer.key) is Ok
            ==> old(ctx).claimer.balance + old(ctx).task.task.bounty_amount <= u64::MAX,
    ensures
        final(ctx).creator == old(ctx).creator,
        match approve_completion_spec(old(ctx).task@, old(ctx).creator, old(ctx).claimer) {
            Ok(after) => r is Ok && final(ctx).task@ == after.0 && final(ctx).claimer == after.1,
            Err(e) => r == Err::<(), BountyError>(e) && final(ctx).task@ == old(ctx).task@
                && final(ctx).claimer == old(ctx).claimer,
        },
{
    approve_completion_handler(ctx)
}

/// Rejects a completion and refunds the creator: see `reject_completion_handler`.
pub fn reject_completion(ctx: &mut RejectCompletion) -> (r: Result<(), BountyError>)
    requires
        reject_completion_check(old(ctx).task@, old(ctx).creator.key) is Ok ==> old(
            ctx,
        ).creator.balance + old(ctx).task.task.bounty_amount <= u64::MAX,
    ensures
        match reject_completion_spec(old(ctx).task@, old(ctx).creator) {
            Ok(after) => r is Ok && final(ctx).task@ == after.0 && final(ctx).creator == after.1,
            Err(e) => r == Err::<(), BountyError>(e) && final(ctx).task@ == old(ctx).task@
                && final(ctx).creator == old(ctx).creator,
        },
{
    reject_completion_handler(ctx)
}

} // verus!
