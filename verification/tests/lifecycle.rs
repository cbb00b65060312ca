use bounty_board::address::{Address, Slot};
use bounty_board::instructions::approve_completion::{approve_completion_handler, ApproveCompletion};
use bounty_board::instructions::claim_task::{claim_task_handler, ClaimTask};
use bounty_board::instructions::create_task::{create_task_handler, CreateTask};
use bounty_board::instructions::reject_completion::{reject_completion_handler, RejectCompletion};
use bounty_board::instructions::submit_completion::{submit_completion_handler, SubmitCompletion};
use bounty_board::state::{BoardAccount, BountyBoard, TaskAccount, TaskStatus, Wallet};

const BOUNTY: u64 = 300;

fn party(tag: u8) -> Address {
    Address { bytes: [tag; 32] }
}

fn rank(status: TaskStatus) -> u8 {
    match status {
        TaskStatus::Created => 0,
        TaskStatus::Claimed => 1,
        TaskStatus::Completed => 2,
        TaskStatus::Approved => 3,
        TaskStatus::Rejected => 3,
    }
}

fn edge(from: TaskStatus, to: TaskStatus) -> bool {
    matches!(
        (from, to),
        (TaskStatus::Created, TaskStatus::Claimed)
            | (TaskStatus::Claimed, TaskStatus::Completed)
            | (TaskStatus::Completed, TaskStatus::Approved)
            | (TaskStatus::Completed, TaskStatus::Rejected)
    )
}

/// The wallets of the three parties and one task: everything that holds funds.
#[derive(Clone, Debug, PartialEq)]
struct World {
    wallets: [u64; 3],
    task: TaskAccount,
}

impl World {
    fn total(&self) -> u64 {
        self.wallets.iter().sum::<u64>() + self.task.escrow
    }
}

fn fresh() -> World {
    let mut posting = CreateTask {
        creator: Wallet { key: party(0), balance: 1000 },
        board: BoardAccount {
            key: party(9),
            board: BountyBoard { authority: party(0), task_count: 0, total_bounties: 0, bump: 255 },
        },
        task: Slot { key: party(8), bump: 254 },
    };
    let task = create_task_handler(&mut posting, "t".to_string(), "d".to_string(), BOUNTY).unwrap();
    World { wallets: [posting.creator.balance, 50, 70], task }
}

/// Attempts the operation with the given number on the world; tells whether it succeeded.
fn attempt(world: &mut World, op: usize) -> bool {
    let task = world.task.clone();
    match op {
        0..=2 => {
            let mut ctx = ClaimTask { claimer: party(op as u8), task };
            let done = claim_task_handler(&mut ctx).is_ok();
            world.task = ctx.task;
            done
        }
        3..=5 => {
            let mut ctx = SubmitCompletion { claimer: party((op - 3) as u8), task };
            let done = submit_completion_handler(&mut ctx, "proof".to_string()).is_ok();
            world.task = ctx.task;
            done
        }
        6..=14 => {
            let caller = (op - 6) / 3;
            let to = (op - 6) % 3;
            let mut ctx = ApproveCompletion {
                creator: party(caller as u8),
                task,
                claimer: Wallet { key: party(to as u8), balance: world.wallets[to] },
            };
            let done = approve_completion_handler(&mut ctx).is_ok();
            world.task = ctx.task;
            world.wallets[to] = ctx.claimer.balance;
            done
        }
        _ => {
            let caller = op - 15;
            let mut ctx = RejectCompletion {
                creator: Wallet { key: party(caller as u8), balance: world.wallets[caller] },
                task,
            };
            let done = reject_completion_handler(&mut ctx).is_ok();
            world.task = ctx.task;
            world.wallets[caller] = ctx.creator.balance;
            done
        }
    }
}

const OPERATIONS: usize = 18;

fn explore(world: &World, depth: usize, visited: &mut usize) {
    *visited += 1;
    assert!(world.task.is_well_formed());
    assert_eq!(world.total(), 1120);
    if depth == 0 {
        return;
    }
    for op in 0..OPERATIONS {
        let mut next = world.clone();
        let done = attempt(&mut next, op);
        if done {
            assert!(edge(world.task.task.status, next.task.task.status));
        } else {
            assert_eq!(&next, world);
        }
        assert!(rank(next.task.task.status) >= rank(world.task.task.status));
        if world.task.task.status != TaskStatus::Created {
            assert_eq!(next.task.task.claimer, world.task.task.claimer);
        }
        if rank(world.task.task.status) == 3 {
            assert!(!done);
        }
        assert_eq!(next.task.key, world.task.key);
        assert_eq!(next.task.task.creator, world.task.task.creator);
        assert_eq!(next.task.task.title, world.task.task.title);
        assert_eq!(next.task.task.description, world.task.task.description);
        assert_eq!(next.task.task.bounty_amount, world.task.task.bounty_amount);
        assert_eq!(next.task.task.task_id, world.task.task.task_id);
        assert_eq!(next.task.task.bump, world.task.task.bump);
        explore(&next, depth - 1, visited);
    }
}

#[test]
fn every_series_of_four_attempts_keeps_the_invariants() {
    let mut visited = 0;
    explore(&fresh(), 4, &mut visited);
    assert_eq!(visited, 1 + 18 + 18 * 18 + 18 * 18 * 18 + 18 * 18 * 18 * 18);
}

#[test]
fn only_one_series_of_three_pays_each_claimer() {
    // After claim by `who`, submit by `who`, approve by the creator into the wallet of `who`.
    for who in 0..3usize {
        let mut paid = 0;
        for first in 0..OPERATIONS {
            for second in 0..OPERATIONS {
                for third in 0..OPERATIONS {
                    let mut world = fresh();
                    attempt(&mut world, first);
                    attempt(&mut world, second);
                    attempt(&mut world, third);
                    if world.task.task.status == TaskStatus::Approved
                        && world.task.task.claimer == Some(party(who as u8))
                    {
                        paid += 1;
                        assert_eq!((first, second, third), (who, 3 + who, 6 + who));
                        assert_eq!(world.task.escrow, 0);
                        let mut expected = [700, 50, 70];
                        expected[who] += BOUNTY;
                        assert_eq!(world.wallets, expected);
                    }
                }
            }
        }
        assert_eq!(paid, 1);
    }
}

#[test]
fn rejection_gives_the_creator_the_bounty_back() {
    let mut world = fresh();
    assert_eq!(world.wallets, [700, 50, 70]);
    assert!(attempt(&mut world, 1));
    assert!(attempt(&mut world, 4));
    assert!(attempt(&mut world, 15));
    assert_eq!(world.wallets, [1000, 50, 70]);
    assert_eq!(world.task.escrow, 0);
    assert_eq!(world.task.task.status, TaskStatus::Rejected);
}

#[test]
fn malformed_records_are_told_apart() {
    let good = fresh().task;
    assert!(good.is_well_formed());
    assert!(good.task.is_well_formed());

    let mut bad = good.clone();
    bad.task.bounty_amount = 0;
    bad.escrow = 0;
    assert!(!bad.is_well_formed());

    let mut bad = good.clone();
    bad.task.title = "t".repeat(101);
    assert!(!bad.is_well_formed());

    let mut bad = good.clone();
    bad.task.description = "d".repeat(501);
    assert!(!bad.is_well_formed());

    let mut bad = good.clone();
    bad.task.status = TaskStatus::Completed;
    bad.task.claimer = Some(party(1));
    bad.task.proof = "p".repeat(501);
    assert!(!bad.is_well_formed());
    bad.task.proof = "p".repeat(500);
    assert!(bad.is_well_formed());

    let mut bad = good.clone();
    bad.task.claimer = Some(party(1));
    assert!(!bad.is_well_formed());

    let mut bad = good.clone();
    bad.task.status = TaskStatus::Claimed;
    assert!(!bad.is_well_formed());
    bad.task.claimer = Some(party(1));
    assert!(bad.is_well_formed());
    bad.task.proof = "early".to_string();
    assert!(!bad.is_well_formed());

    let mut bad = good.clone();
    bad.escrow = BOUNTY - 1;
    assert!(bad.task.is_well_formed());
    assert!(!bad.is_well_formed());

    let mut bad = good.clone();
    bad.task.status = TaskStatus::Approved;
    bad.task.claimer = Some(party(1));
    assert!(!bad.is_well_formed());
    bad.escrow = 0;
    assert!(bad.is_well_formed());
}
