//! Sidequest workflow engine: moves the currently staged changes of a git
//! repository onto a new, independently rebased branch, without disturbing
//! the original branch or any uncommitted work, as one all-or-nothing
//! transaction with an explicit rollback path.
//!
//! - [`engine`] runs the workflow against a real repository through the
//!   trusted backend boundary in [`git`]; a ghost trace pins down the exact
//!   order of mutating operations on every path, together with the operands
//!   handed to each.
//! - [`model`] is the abstract repository the workflow is specified over;
//!   [`laws`] proves the transaction guarantees (no mutation on a rejected
//!   run, exact rollback, idempotent failure, the composed success state)
//!   as theorems about that model.
//! - [`errors`] is the failure taxonomy; [`message`] sanitizes editor
//!   buffers into usable commit messages.

pub mod engine;
pub mod errors;
pub mod git;
pub mod laws;
pub mod message;
pub mod model;

pub use engine::{
    branch_exists, checkout_branch, commit_on_head, create_branch, get_current_branch_name,
    has_staged_changes, has_unstaged_changes, is_mid_operation, rebase_branch, stash_pop,
    stash_push, validate_branch_name, App, ICheckInitialState, InitialStateChecker,
};
pub use errors::{ErrorKind, WorkflowError};
pub use git::{default_signature, open_repository};
pub use message::sanitize_commit_message;
