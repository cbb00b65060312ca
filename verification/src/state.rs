use crate::address::Address;
use vstd::prelude::*;
use vstd::utf8::encode_utf8;

verus! {

/// The most bytes a task's title may take.
pub const TITLE_MAX_LEN: usize = 100;

/// The most bytes a task's description may take.
pub const DESCRIPTION_MAX_LEN: usize = 500;

/// The most bytes a proof of completion may take.
pub const PROOF_MAX_LEN: usize = 500;

/// The number of bytes that a text takes in UTF-8, which is what `String::len` counts.
pub open spec fn byte_len(text: Seq<char>) -> nat {
    encode_utf8(text).len()
}

/// Counts the bytes of a text.
pub fn text_len(text: &str) -> (n: usize)
    ensures
        n == byte_len(text@),
{
    text.as_bytes().len()
}

/// A party's identity together with the balance it can spend or receive on.
#[derive(Clone, Copy, Debug, PartialEq, Eq)]
pub struct Wallet {
    pub key: Address,
    pub balance: u64,
}

/// The registry that one authority administers.
#[derive(Clone, Copy, Debug, PartialEq, Eq)]
pub struct BountyBoard {
    /// The administrator; never changes.
    pub authority: Address,
    /// How many tasks were ever posted; also the number of the next task.
    pub task_count: u64,
    /// The sum of all bounties ever posted; paying out or refunding does not lower it.
    pub total_bounties: u64,
    /// The bump seed of the board's address.
    pub bump: u8,
}

/// A board together with the address at which it is kept.
#[derive(Clone, Copy, Debug, PartialEq, Eq)]
pub struct BoardAccount {
    pub key: Address,
    pub board: BountyBoard,
}

/// Where a task stands in its life: `Created`, then `Claimed`, then `Completed`, then
/// either `Approved` or `Rejected`.
#[derive(Clone, Copy, Debug, PartialEq, Eq, Structural)]
pub enum TaskStatus {
    Created,
    Claimed,
    Completed,
    Approved,
    Rejected,
}

impl TaskStatus {
    /// The number under which a status is stored: 0 for `Created` up to 4 for `Rejected`.
    pub open spec fn code_spec(self) -> u8 {
        match self {
            TaskStatus::Created => 0,
            TaskStatus::Claimed => 1,
            TaskStatus::Completed => 2,
            TaskStatus::Approved => 3,
            TaskStatus::Rejected => 4,
        }
    }

    /// The number under which this status is stored.
    pub fn code(&self) -> (code: u8)
        ensures
            code == self.code_spec(),
    {
        match self {
            TaskStatus::Created => 0,
            TaskStatus::Claimed => 1,
            TaskStatus::Completed => 2,
            TaskStatus::Approved => 3,
            TaskStatus::Rejected => 4,
        }
    }

    /// The position of a status along the lifecycle; both final statuses share the last.
    pub open spec fn rank(self) -> nat {
        match self {
            TaskStatus::Created => 0,
            TaskStatus::Claimed => 1,
            TaskStatus::Completed => 2,
            TaskStatus::Approved => 3,
            TaskStatus::Rejected => 3,
        }
    }

    /// Whether the bounty is still held for a task in this status.
    pub open spec fn holds_escrow(self) -> bool {
        self == TaskStatus::Created || self == TaskStatus::Claimed || self
            == TaskStatus::Completed
    }

    /// Whether no operation leads out of this status.
    pub open spec fn is_final(self) -> bool {
        self == TaskStatus::Approved || self == TaskStatus::Rejected
    }

    /// Whether the lifecycle has an edge from `self` to `next`.
    pub open spec fn leads_to(self, next: TaskStatus) -> bool {
        match self {
            TaskStatus::Created => next == TaskStatus::Claimed,
            TaskStatus::Claimed => next == TaskStatus::Completed,
            TaskStatus::Completed => next == TaskStatus::Approved || next == TaskStatus::Rejected,
            TaskStatus::Approved => false,
            TaskStatus::Rejected => false,
        }
    }
}

/// One posted bounty.
#[derive(Clone, Debug, PartialEq, Eq)]
pub struct Task {
    /// Who funded the task and may approve or reject its completion.
    pub creator: Address,
    /// Who took the task on; unset until a claim succeeds, fixed from then on.
    pub claimer: Option<Address>,
    pub title: String,
    pub description: String,
    /// The amount put in escrow when the task was posted.
    pub bounty_amount: u64,
    pub status: TaskStatus,
    /// The claimer's evidence of completion; empty until it is submitted.
    pub proof: String,
    /// The task's number on its board, counted from zero.
    pub task_id: u64,
    /// The bump seed of the task's address.
    pub bump: u8,
}

/// A task as a mathematical value: its texts are sequences of characters.
pub struct TaskView {
    pub creator: Address,
    pub claimer: Option<Address>,
    pub title: Seq<char>,
    pub description: Seq<char>,
    pub bounty_amount: u64,
    pub status: TaskStatus,
    pub proof: Seq<char>,
    pub task_id: u64,
    pub bump: u8,
}

impl View for Task {
    type V = TaskView;

    open spec fn view(&self) -> TaskView {
        TaskView {
            creator: self.creator,
            claimer: self.claimer,
            title: self.title@,
            description: self.description@,
            bounty_amount: self.bounty_amount,
            status: self.status,
            proof: self.proof@,
            task_id: self.task_id,
            bump: self.bump,
        }
    }
}

impl TaskView {
    /// What holds of every task record: the bounty is positive, the texts keep their
    /// bounds, a claimer is recorded exactly from the first claim on, and there is no
    /// proof before one is submitted.
    pub open spec fn wf(self) -> bool {
        &&& self.bounty_amount > 0
        &&& byte_len(self.title) <= TITLE_MAX_LEN
        &&& byte_len(self.description) <= DESCRIPTION_MAX_LEN
        &&& byte_len(self.proof) <= PROOF_MAX_LEN
        &&& (self.claimer is Some <==> self.status != TaskStatus::Created)
        &&& (self.status.rank() < 2 ==> self.proof.len() == 0)
    }
}

impl Task {
    /// Tells whether the record is well formed.
    pub fn is_well_formed(&self) -> (ok: bool)
        ensures
            ok == self@.wf(),
    {
        if self.bounty_amount == 0 {
            return false;
        }
        if text_len(self.title.as_str()) > TITLE_MAX_LEN {
            return false;
        }
        if text_len(self.description.as_str()) > DESCRIPTION_MAX_LEN {
            return false;
        }
        if text_len(self.proof.as_str()) > PROOF_MAX_LEN {
            return false;
        }
        let claimed = match &self.claimer {
            Some(_) => true,
            None => false,
        };
        match self.status {
            TaskStatus::Created => !claimed && self.proof.as_str().is_empty(),
            TaskStatus::Claimed => claimed && self.proof.as_str().is_empty(),
            _ => claimed,
        }
    }
}

/// A task together with the address at which it is kept and the funds held there.
#[derive(Clone, Debug, PartialEq, Eq)]
pub struct TaskAccount {
    pub key: Address,
    /// The funds held for the task until they are paid out or refunded.
    pub escrow: u64,
    pub task: Task,
}

/// A task account as a mathematical value.
pub struct TaskAccountView {
    pub key: Address,
    pub escrow: u64,
    pub task: TaskView,
}

impl View for TaskAccount {
    type V = TaskAccountView;

    open spec fn view(&self) -> TaskAccountView {
        TaskAccountView { key: self.key, escrow: self.escrow, task: self.task@ }
    }
}

impl TaskAccount {
    /// Tells whether the account is well formed.
    pub fn is_well_formed(&self) -> (ok: bool)
        ensures
            ok == self@.wf(),
    {
        let due: u64 = match self.task.status {
            TaskStatus::Approved => 0,
            TaskStatus::Rejected => 0,
            _ => self.task.bounty_amount,
        };
        self.task.is_well_formed() && self.escrow == due
    }
}

impl TaskAccountView {
    /// What holds of every task account: the record is well formed, and the escrow is
    /// the whole bounty until the task is approved or rejected and nothing afterwards.
    pub open spec fn wf(self) -> bool {
        &&& self.task.wf()
        &&& self.escrow == if self.task.status.holds_escrow() {
            self.task.bounty_amount
        } else {
            0
        }
    }
}

} // verus!
