//! Failure taxonomy of the workflow, and the precondition checks that every
//! run must pass before any mutation is attempted.

use vstd::prelude::*;

verus! {

/// Every way a run can fail, without the wrapped backend error.
///
/// The first four variants are precondition failures, detected before any
/// mutation; the repository needs no cleanup for them.  `RollbackFailed` is
/// the distinct, higher-severity kind raised when undoing a failed run
/// itself fails: the repository is then neither in its original nor in the
/// intended final state.
#[derive(Clone, Copy, Debug, PartialEq, Eq, Structural)]
pub enum ErrorKind {
    AlreadyInProgress,
    NoStagedChanges,
    TargetBranchExists,
    OntoBranchMissing,
    NotOnBranch,
    SignatureUnavailable,
    StatusQueryFailed,
    BranchCreateFailed,
    CheckoutFailed,
    CommitFailed,
    StashPushFailed,
    RebaseFailed,
    StashPopFailed,
    RollbackFailed,
}

/// The precondition decision over the four facts it inspects, in the fixed
/// order the workflow checks them: an operation already in progress, then
/// missing staged changes, then a target name collision, then a missing
/// onto branch.
pub open spec fn validate_flags(
    mid_operation: bool,
    staged: bool,
    target_exists: bool,
    onto_exists: bool,
) -> Result<(), ErrorKind> {
    if mid_operation {
        Err(ErrorKind::AlreadyInProgress)
    } else if !staged {
        Err(ErrorKind::NoStagedChanges)
    } else if target_exists {
        Err(ErrorKind::TargetBranchExists)
    } else if !onto_exists {
        Err(ErrorKind::OntoBranchMissing)
    } else {
        Ok(())
    }
}

/// The go/no-go decision before any mutation: short-circuits on the first failing
/// check, each failure carrying its own actionable kind.
pub fn validate_preconditions(
    mid_operation: bool,
    staged: bool,
    target_exists: bool,
    onto_exists: bool,
) -> (r: Result<(), ErrorKind>)
    ensures
        r == validate_flags(mid_operation, staged, target_exists, onto_exists),
{
    if mid_operation {
        Err(ErrorKind::AlreadyInProgress)
    } else if !staged {
        Err(ErrorKind::NoStagedChanges)
    } else if target_exists {
        Err(ErrorKind::TargetBranchExists)
    } else if !onto_exists {
        Err(ErrorKind::OntoBranchMissing)
    } else {
        Ok(())
    }
}

/// Every way a run can fail, the wrapped backend error included.  Callers
/// can pattern-match, or compare kinds through [`WorkflowError::kind`].
#[derive(Debug)]
pub enum WorkflowError {
    /// An operation (merge, rebase, cherry-pick) is already in progress.
    AlreadyInProgress,
    /// The index holds nothing to put on a sidequest branch.
    NoStagedChanges,
    /// The target name already names a local or remote-tracking branch.
    TargetBranchExists,
    /// The onto branch does not exist.
    OntoBranchMissing,
    /// HEAD is not the top of a local branch, or its name is unreadable.
    NotOnBranch,
    /// No identity was given and none could be read from the configuration.
    SignatureUnavailable(git2::Error),
    /// The status list of index and working tree could not be computed.
    StatusQueryFailed(git2::Error),
    /// Creating the target branch failed.
    BranchCreateFailed(git2::Error),
    /// A checkout failed; the second field attaches the first failure of
    /// the best-effort cleanup, when the checkout was mid-workflow and the
    /// cleanup itself went wrong.
    CheckoutFailed(git2::Error, Option<git2::Error>),
    /// Synthesizing the sidequest commit failed; the second field attaches
    /// the first failure of the best-effort cleanup, if any.
    CommitFailed(git2::Error, Option<git2::Error>),
    /// Setting the unstaged changes aside failed; the second field attaches
    /// the first failure of the best-effort cleanup, if any.
    StashPushFailed(git2::Error, Option<git2::Error>),
    /// The rebase failed and the repository was rolled back.
    RebaseFailed(git2::Error),
    /// Restoring the unstaged changes after a successful rebase failed.
    StashPopFailed(git2::Error),
    /// Undoing a failed run itself failed: the repository is neither in its
    /// original state nor in the intended final state and needs manual
    /// attention.  Carries the failing undo step's error first and the
    /// rebase failure that triggered the rollback second.
    RollbackFailed(git2::Error, git2::Error),
}

impl WorkflowError {
    /// The kind of this failure, without the wrapped backend error.
    pub open spec fn kind_spec(&self) -> ErrorKind {
        match self {
            WorkflowError::AlreadyInProgress => ErrorKind::AlreadyInProgress,
            WorkflowError::NoStagedChanges => ErrorKind::NoStagedChanges,
            WorkflowError::TargetBranchExists => ErrorKind::TargetBranchExists,
            WorkflowError::OntoBranchMissing => ErrorKind::OntoBranchMissing,
            WorkflowError::NotOnBranch => ErrorKind::NotOnBranch,
            WorkflowError::SignatureUnavailable(_) => ErrorKind::SignatureUnavailable,
            WorkflowError::StatusQueryFailed(_) => ErrorKind::StatusQueryFailed,
            WorkflowError::BranchCreateFailed(_) => ErrorKind::BranchCreateFailed,
            WorkflowError::CheckoutFailed(_, _) => ErrorKind::CheckoutFailed,
            WorkflowError::CommitFailed(_, _) => ErrorKind::CommitFailed,
            WorkflowError::StashPushFailed(_, _) => ErrorKind::StashPushFailed,
            WorkflowError::RebaseFailed(_) => ErrorKind::RebaseFailed,
            WorkflowError::StashPopFailed(_) => ErrorKind::StashPopFailed,
            WorkflowError::RollbackFailed(_, _) => ErrorKind::RollbackFailed,
        }
    }

    /// The kind of this failure, without the wrapped backend error.
    pub fn kind(&self) -> (k: ErrorKind)
        ensures
            k == self.kind_spec(),
    {
        match self {
            WorkflowError::AlreadyInProgress => ErrorKind::AlreadyInProgress,
            WorkflowError::NoStagedChanges => ErrorKind::NoStagedChanges,
            WorkflowError::TargetBranchExists => ErrorKind::TargetBranchExists,
            WorkflowError::OntoBranchMissing => ErrorKind::OntoBranchMissing,
            WorkflowError::NotOnBranch => ErrorKind::NotOnBranch,
            WorkflowError::SignatureUnavailable(_) => ErrorKind::SignatureUnavailable,
            WorkflowError::StatusQueryFailed(_) => ErrorKind::StatusQueryFailed,
            WorkflowError::BranchCreateFailed(_) => ErrorKind::BranchCreateFailed,
            WorkflowError::CheckoutFailed(_, _) => ErrorKind::CheckoutFailed,
            WorkflowError::CommitFailed(_, _) => ErrorKind::CommitFailed,
            WorkflowError::StashPushFailed(_, _) => ErrorKind::StashPushFailed,
            WorkflowError::RebaseFailed(_) => ErrorKind::RebaseFailed,
            WorkflowError::StashPopFailed(_) => ErrorKind::StashPopFailed,
            WorkflowError::RollbackFailed(_, _) => ErrorKind::RollbackFailed,
        }
    }

    /// A short, user-actionable description of the failure.
    pub fn describe(&self) -> (s: &'static str)
    {
        match self {
            WorkflowError::AlreadyInProgress => "an operation is already in progress",
            WorkflowError::NoStagedChanges => "no staged changes found",
            WorkflowError::TargetBranchExists => "target branch already exists",
            WorkflowError::OntoBranchMissing => "onto branch does not exist",
            WorkflowError::NotOnBranch => "HEAD is not the top of a local branch",
            WorkflowError::SignatureUnavailable(_) => "no signature configured for the repository",
            WorkflowError::StatusQueryFailed(_) => "unable to read the repository status",
            WorkflowError::BranchCreateFailed(_) => "failed to create the sidequest branch",
            WorkflowError::CheckoutFailed(_, _) => "failed to check a branch out",
            WorkflowError::CommitFailed(_, _) => "failed to commit the staged changes",
            WorkflowError::StashPushFailed(_, _) => "failed to stash the unstaged changes",
            WorkflowError::RebaseFailed(_) => "failed to rebase the sidequest branch onto the target branch, operation aborted",
            WorkflowError::StashPopFailed(_) => "failed to restore the stashed unstaged changes",
            WorkflowError::RollbackFailed(_, _) => "rollback of a failed run itself failed: the repository was left mid-way and needs manual attention",
        }
    }
}

} // verus!
