use crate::address::{Address, Slot};
use crate::errors::BountyError;
use crate::state::{BoardAccount, BountyBoard};
use vstd::prelude::*;

verus! {

/// What opening a board takes: the caller, who becomes its authority, and the place
/// derived for the board.
#[derive(Clone, Copy, Debug, PartialEq, Eq)]
pub struct InitializeBoard {
    pub authority: Address,
    pub board: Slot,
}

/// The board that `authority` opens at `slot`: nothing posted yet.
pub open spec fn new_board(authority: Address, slot: Slot) -> BoardAccount {
    BoardAccount {
        key: slot.key,
        board: BountyBoard { authority, task_count: 0, total_bounties: 0, bump: slot.bump },
    }
}

/// Opens the caller's board, with both counters at zero. It never fails: whether a
/// board already stands at that place is for the storage that keeps the records to say.
pub fn initialize_board_handler(ctx: InitializeBoard) -> (r: Result<BoardAccount, BountyError>)
    ensures
        r == Ok::<BoardAccount, BountyError>(new_board(ctx.authority, ctx.board)),
{
    Ok(
        BoardAccount {
            key: ctx.board.key,
            board: BountyBoard {
                authority: ctx.authority,
                task_count: 0,
                total_bounties: 0,
                bump: ctx.board.bump,
            },
        },
    )
}

} // verus!
