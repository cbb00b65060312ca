pub mod approve_completion;
pub mod claim_task;
pub mod create_task;
pub mod initialize_board;
pub mod reject_completion;
pub mod submit_completion;
