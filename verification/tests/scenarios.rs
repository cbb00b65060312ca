use bounty_board::address::{Address, Slot};
use bounty_board::errors::BountyError;
use bounty_board::instructions::approve_completion::{approve_completion_handler, ApproveCompletion};
use bounty_board::instructions::claim_task::{claim_task_handler, ClaimTask};
use bounty_board::instructions::create_task::{create_task_handler, CreateTask};
use bounty_board::instructions::initialize_board::{initialize_board_handler, InitializeBoard};
use bounty_board::instructions::reject_completion::{reject_completion_handler, RejectCompletion};
use bounty_board::instructions::submit_completion::{submit_completion_handler, SubmitCompletion};
use bounty_board::state::{BoardAccount, BountyBoard, Task, TaskAccount, TaskStatus, Wallet};

fn party(tag: u8) -> Address {
    Address { bytes: [tag; 32] }
}

fn place(tag: u8) -> Slot {
    Slot { key: party(tag), bump: 255 }
}

#[test]
fn end_to_end_approval() {
    let a = party(1);
    let b = party(2);
    let board = initialize_board_handler(InitializeBoard { authority: a, board: place(10) }).unwrap();
    assert_eq!(
        board,
        BoardAccount {
            key: party(10),
            board: BountyBoard { authority: a, task_count: 0, total_bounties: 0, bump: 255 },
        }
    );

    let mut posting = CreateTask { creator: Wallet { key: a, balance: 5000 }, board, task: place(11) };
    let task =
        create_task_handler(&mut posting, "Fix bug".to_string(), "...".to_string(), 1000).unwrap();
    assert_eq!(
        task,
        TaskAccount {
            key: party(11),
            escrow: 1000,
            task: Task {
                creator: a,
                claimer: None,
                title: "Fix bug".to_string(),
                description: "...".to_string(),
                bounty_amount: 1000,
                status: TaskStatus::Created,
                proof: String::new(),
                task_id: 0,
                bump: 255,
            },
        }
    );
    assert_eq!(posting.creator, Wallet { key: a, balance: 4000 });
    assert_eq!(posting.board.board.task_count, 1);
    assert_eq!(posting.board.board.total_bounties, 1000);
    assert_eq!(posting.board.board.authority, a);

    let mut claim = ClaimTask { claimer: b, task };
    assert_eq!(claim_task_handler(&mut claim), Ok(()));
    assert_eq!(claim.task.task.claimer, Some(b));
    assert_eq!(claim.task.task.status, TaskStatus::Claimed);
    assert_eq!(claim.task.escrow, 1000);

    let mut submit = SubmitCompletion { claimer: b, task: claim.task };
    assert_eq!(submit_completion_handler(&mut submit, "PR#12".to_string()), Ok(()));
    assert_eq!(submit.task.task.proof, "PR#12");
    assert_eq!(submit.task.task.status, TaskStatus::Completed);
    assert_eq!(submit.task.escrow, 1000);

    let mut approve = ApproveCompletion {
        creator: a,
        task: submit.task,
        claimer: Wallet { key: b, balance: 0 },
    };
    assert_eq!(approve_completion_handler(&mut approve), Ok(()));
    assert_eq!(approve.task.escrow, 0);
    assert_eq!(approve.claimer, Wallet { key: b, balance: 1000 });
    assert_eq!(approve.task.task.status, TaskStatus::Approved);

    let settled = approve.clone();
    assert_eq!(approve_completion_handler(&mut approve), Err(BountyError::InvalidTaskStatus));
    assert_eq!(approve, settled);

    let mut reject = RejectCompletion { creator: Wallet { key: a, balance: 4000 }, task: approve.task };
    let before = reject.clone();
    assert_eq!(reject_completion_handler(&mut reject), Err(BountyError::InvalidTaskStatus));
    assert_eq!(reject, before);
}

#[test]
fn end_to_end_rejection() {
    let a = party(1);
    let b = party(2);
    let board = initialize_board_handler(InitializeBoard { authority: a, board: place(10) }).unwrap();
    let mut posting = CreateTask { creator: Wallet { key: a, balance: 1000 }, board, task: place(11) };
    let task =
        create_task_handler(&mut posting, "Fix bug".to_string(), "...".to_string(), 1000).unwrap();
    assert_eq!(posting.creator.balance, 0);
    let mut claim = ClaimTask { claimer: b, task };
    assert_eq!(claim_task_handler(&mut claim), Ok(()));
    let mut submit = SubmitCompletion { claimer: b, task: claim.task };
    assert_eq!(submit_completion_handler(&mut submit, "PR#12".to_string()), Ok(()));

    let mut reject = RejectCompletion { creator: posting.creator, task: submit.task };
    assert_eq!(reject_completion_handler(&mut reject), Ok(()));
    assert_eq!(reject.creator, Wallet { key: a, balance: 1000 });
    assert_eq!(reject.task.escrow, 0);
    assert_eq!(reject.task.task.status, TaskStatus::Rejected);
    assert_eq!(reject.task.task.claimer, Some(b));
    assert_eq!(reject.task.task.proof, "PR#12");

    let mut approve = ApproveCompletion {
        creator: a,
        task: reject.task.clone(),
        claimer: Wallet { key: b, balance: 0 },
    };
    let before = approve.clone();
    assert_eq!(approve_completion_handler(&mut approve), Err(BountyError::InvalidTaskStatus));
    assert_eq!(approve, before);

    let settled = reject.clone();
    assert_eq!(reject_completion_handler(&mut reject), Err(BountyError::InvalidTaskStatus));
    assert_eq!(reject, settled);
}

#[test]
fn title_of_101_bytes_is_refused() {
    let a = party(1);
    let board = initialize_board_handler(InitializeBoard { authority: a, board: place(10) }).unwrap();
    let mut posting = CreateTask { creator: Wallet { key: a, balance: 5000 }, board, task: place(11) };
    let before = posting;
    let title = "t".repeat(101);
    assert_eq!(title.len(), 101);
    let refused = create_task_handler(&mut posting, title, "...".to_string(), 1000);
    assert_eq!(refused, Err(BountyError::TitleTooLong));
    assert_eq!(posting, before);
    assert_eq!(posting.board.board.task_count, 0);
    assert_eq!(posting.board.board.total_bounties, 0);
}

#[test]
fn two_tasks_are_numbered_in_turn() {
    let a = party(1);
    let board = initialize_board_handler(InitializeBoard { authority: a, board: place(10) }).unwrap();
    let mut posting = CreateTask { creator: Wallet { key: a, balance: 100 }, board, task: place(11) };
    let first = create_task_handler(&mut posting, "one".to_string(), "".to_string(), 30).unwrap();
    posting.task = place(12);
    let refused = create_task_handler(&mut posting, "big".to_string(), "".to_string(), 71);
    assert_eq!(refused, Err(BountyError::InsufficientFunds));
    let second = create_task_handler(&mut posting, "two".to_string(), "".to_string(), 70).unwrap();
    assert_eq!(first.task.task_id, 0);
    assert_eq!(second.task.task_id, 1);
    assert_eq!(second.key, party(12));
    assert_eq!(posting.board.board.task_count, 2);
    assert_eq!(posting.board.board.total_bounties, 100);
    assert_eq!(posting.creator.balance, 0);
    assert_eq!(first.escrow + second.escrow, 100);
}
