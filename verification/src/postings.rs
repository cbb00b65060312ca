use crate::address::Slot;
use crate::errors::BountyError;
use crate::instructions::create_task::{create_task_spec, CreateTask};
use crate::state::{BoardAccount, TaskAccountView, TaskStatus, Wallet};
use vstd::prelude::*;

verus! {

/// A request to post a task on a board, with what the creator brings to it.
pub struct Posting {
    pub creator: Wallet,
    pub task: Slot,
    pub title: Seq<char>,
    pub description: Seq<char>,
    pub bounty_amount: u64,
}

impl Posting {
    /// The creator and board after the request together with the new task, or the
    /// reason for which the request is refused.
    pub open spec fn outcome(self, board: BoardAccount) -> Result<
        (CreateTask, TaskAccountView),
        BountyError,
    > {
        create_task_spec(
            CreateTask { creator: self.creator, board, task: self.task },
            self.title,
            self.description,
            self.bounty_amount,
        )
    }
}

/// The board after a series of requests, made one after the other, and the tasks that
/// they created, in the order of their creation. A refused request leaves the board as
/// it was and creates nothing.
pub open spec fn postings(board: BoardAccount, requests: Seq<Posting>) -> (
    BoardAccount,
    Seq<TaskAccountView>,
)
    decreases requests.len(),
{
    if requests.len() == 0 {
        (board, Seq::empty())
    } else {
        let before = postings(board, requests.drop_last());
        match requests.last().outcome(before.0) {
            Ok(after) => (after.0.board, before.1.push(after.1)),
            Err(_) => before,
        }
    }
}

/// The sum of the amounts that a series of requests offers.
pub open spec fn offered(requests: Seq<Posting>) -> nat
    decreases requests.len(),
{
    if requests.len() == 0 {
        0
    } else {
        offered(requests.drop_last()) + requests.last().bounty_amount as nat
    }
}

/// The sum of the bounties of a series of tasks.
pub open spec fn bounties(tasks: Seq<TaskAccountView>) -> nat
    decreases tasks.len(),
{
    if tasks.len() == 0 {
        0
    } else {
        bounties(tasks.drop_last()) + tasks.last().task.bounty_amount as nat
    }
}

/// A board counts its tasks: over any series of requests that its counters can take,
/// the count grows by the number of tasks created and the total by the sum of their
/// bounties, every task created is numbered by its position among all the board's
/// tasks, so that no two share a number, and every one starts out well formed, in
/// status `Created` and with its whole bounty in escrow. The board's address, authority
/// and bump seed stay as they were.
pub proof fn law_board_counts_its_tasks(board: BoardAccount, requests: Seq<Posting>)
    requires
        board.board.task_count + requests.len() <= u64::MAX,
        board.board.total_bounties + offered(requests) <= u64::MAX,
    ensures
        ({
            let (after, tasks) = postings(board, requests);
            &&& tasks.len() <= requests.len()
            &&& bounties(tasks) <= offered(requests)
            &&& after.board.task_count == board.board.task_count + tasks.len()
            &&& after.board.total_bounties == board.board.total_bounties + bounties(tasks)
            &&& after.key == board.key
            &&& after.board.authority == board.board.authority
            &&& after.board.bump == board.board.bump
            &&& forall|i: int|
                0 <= i < tasks.len() ==> {
                    &&& (#[trigger] tasks[i]).task.task_id == board.board.task_count + i
                    &&& tasks[i].task.status == TaskStatus::Created
                    &&& tasks[i].escrow == tasks[i].task.bounty_amount
                    &&& tasks[i].wf()
                }
            &&& forall|i: int, j: int|
                0 <= i < j < tasks.len() ==> (#[trigger] tasks[i]).task.task_id != (
                #[trigger] tasks[j]).task.task_id
        }),
    decreases requests.len(),
{
    if requests.len() > 0 {
        let earlier = requests.drop_last();
        law_board_counts_its_tasks(board, earlier);
        let before = postings(board, earlier);
        match requests.last().outcome(before.0) {
            Ok(after) => {
                assert(before.1.push(after.1).drop_last() =~= before.1);
            },
            Err(_) => {},
        }
    }
}

} // verus!
