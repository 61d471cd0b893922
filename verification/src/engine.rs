//! The git-backed workflow engine.
//!
//! Free functions mirror the primitive operations (queries, branch and
//! commit mutation, stash handling, the rebase loop); [`App::run`] sequences
//! them.  What a backend call returns depends on on-disk state, so the
//! contracts here pin down the part Verus can check: the decision logic
//! (the precondition verdict in [`crate::errors::validate_flags`], reached
//! through [`crate::errors::validate_preconditions`]; the status-bit scan;
//! the sanitizer) and, for `run`, the exact order of mutating operations
//! attempted on every path together with the operands handed to each — the
//! branch names, the reference they are created at, the commit message, the
//! stash position — recorded in a ghost trace.  Validation failures mutate
//! nothing, a failed rebase is followed by the full rollback sequence, and
//! every stash push is matched by exactly one pop.  The repository-level
//! outcome of those sequences is specified and proved in [`crate::model`]
//! and [`crate::laws`].

use vstd::prelude::*;
use vstd::string::StringExecFns;

use crate::errors::{validate_preconditions, ErrorKind, WorkflowError};
use crate::git::{
    annotated_commit, branch_delete, branch_into_reference, branch_name_is_valid, branch_name_ok,
    checkout_tree, commit_parent, commit_with_parent, create_branch_at, default_signature,
    find_branch, find_reference, find_tree, index_write_tree, nul_free, peel_to_commit,
    rebase_commit, rebase_finish, rebase_init, rebase_len, rebase_next, reference_is_branch,
    reference_shorthand, repo_head, repo_index, repo_state, repo_statuses, reset_soft,
    revparse_object, set_head, stash_apply, stash_drop, stash_save, statuses_bits, statuses_len,
    status_bits_at, RebaseOpKind, RepoState,
};

verus! {

/// Status bits that mean the index differs from HEAD: a new, modified,
/// deleted, renamed or type-changed entry in the index.
pub const STAGED_MASK: u32 = (1u32 << 0) | (1u32 << 1) | (1u32 << 2) | (1u32 << 3) | (1u32 << 4);

/// Status bits that mean the working tree differs from the index: a new,
/// modified, deleted, renamed or type-changed entry in the working tree.
pub const UNSTAGED_MASK: u32 = (1u32 << 7) | (1u32 << 8) | (1u32 << 9) | (1u32 << 10) | (1u32
    << 11);

/// Some entry of the status list has a bit of the mask set.
pub fn any_status_matches(s: &git2::Statuses<'_>, mask: u32) -> (r: bool)
    ensures
        r == exists|i: int|
            0 <= i < statuses_bits(*s).len() && #[trigger] statuses_bits(*s)[i] & mask != 0,
{
    let n = statuses_len(s);
    let mut i: usize = 0;
    while i < n
        invariant
            n == statuses_bits(*s).len(),
            i <= n,
            forall|j: int| 0 <= j < i ==> #[trigger] statuses_bits(*s)[j] & mask == 0,
        decreases n - i,
    {
        match status_bits_at(s, i) {
            Some(bits) => {
                if bits & mask != 0 {
                    return true;
                }
            },
            None => {},
        }
        i += 1;
    }
    false
}

/// The index holds changes relative to HEAD.
pub fn has_staged_changes(repo: &git2::Repository) -> (r: Result<bool, git2::Error>) {
    match repo_statuses(repo) {
        Ok(s) => Ok(any_status_matches(&s, STAGED_MASK)),
        Err(e) => Err(e),
    }
}

/// The working tree holds changes relative to the index.
pub fn has_unstaged_changes(repo: &git2::Repository) -> (r: Result<bool, git2::Error>) {
    match repo_statuses(repo) {
        Ok(s) => Ok(any_status_matches(&s, UNSTAGED_MASK)),
        Err(e) => Err(e),
    }
}

/// A branch of this name exists, locally or as a remote-tracking branch.
pub fn branch_exists(repo: &git2::Repository, branch: &str) -> (r: bool) {
    if find_branch(repo, branch, false).is_ok() {
        return true;
    }
    if find_branch(repo, branch, true).is_ok() {
        return true;
    }
    false
}

/// An operation (merge, rebase, cherry-pick) is unfinished: the repository's
/// state reads anything but clean.
pub fn is_mid_operation(repo: &git2::Repository) -> (r: bool) {
    repo_state(repo) != RepoState::Clean
}

/// Accept a branch name the backend's syntax rules accept, handed back
/// unchanged; reject anything else.  Every NUL-free name the backend rules
/// accept is accepted.
pub fn validate_branch_name(branch_name: &str) -> (r: Result<String, String>)
    ensures
        r matches Ok(s) ==> branch_name_ok(branch_name@) && s@ == branch_name@,
        nul_free(branch_name@) && branch_name_ok(branch_name@) ==> r is Ok,
{
    match branch_name_is_valid(branch_name) {
        Ok(true) => Ok(branch_name.to_owned()),
        _ => Err("Invalid branch name".to_owned()),
    }
}

/// Short name of the branch HEAD is the top of; nothing when HEAD cannot be
/// read, is detached, or has no readable short name.
pub fn get_current_branch_name(repo: &git2::Repository) -> (r: Option<String>) {
    let head = match repo_head(repo) {
        Ok(h) => h,
        Err(_) => {
            return None;
        },
    };
    if !reference_is_branch(&head) {
        return None;
    }
    match reference_shorthand(&head) {
        Ok(s) => Some(s),
        Err(_) => None,
    }
}

/// Short name of the branch HEAD is the top of; the dedicated failure when
/// HEAD is detached or unreadable.
fn current_branch_checked(repo: &git2::Repository) -> (r: Result<String, WorkflowError>)
    ensures
        r matches Err(e) ==> e is NotOnBranch,
{
    match get_current_branch_name(repo) {
        Some(s) => Ok(s),
        None => Err(WorkflowError::NotOnBranch),
    }
}

/// One mutating operation the workflow attempts on the repository, with the
/// operands handed to the backend; the ghost trace of [`App::run`] records
/// them in order.
pub enum GitAction {
    /// A branch of this name created at what the reference resolves to.
    CreateBranch { name: Seq<char>, at: Seq<char> },
    /// The named branch checked out (working tree brought to its tip, HEAD
    /// repointed at `refs/heads/` plus the name).
    Checkout { name: Seq<char> },
    /// The index committed on top of HEAD with this message.
    CommitStaged { message: Seq<char> },
    /// A stash entry pushed with this message; with `keep_index` the index
    /// is left in place and only the unstaged changes are captured.
    StashPush { message: Seq<char>, keep_index: bool },
    /// A rebase of `current` since `upstream` onto `onto` attempted.
    RebaseAttempt { current: Seq<char>, upstream: Seq<char>, onto: Seq<char> },
    /// The stash entry at this position applied and dropped.
    StashPop { position: int },
    /// The newest commit of the current branch undone.
    ResetToParent,
    /// The named local branch pointer deleted.
    DeleteBranch { name: Seq<char> },
}

/// The mutation prefix every run that passes the precondition checks
/// attempts, up to and including the rebase; the stash push happens exactly
/// when unstaged changes were present.
pub open spec fn mutation_prefix_actions(
    target: Seq<char>,
    orig: Seq<char>,
    onto: Seq<char>,
    message: Seq<char>,
    stashed: bool,
) -> Seq<GitAction> {
    let head = seq![
        GitAction::CreateBranch { name: target, at: "HEAD"@ },
        GitAction::Checkout { name: target },
        GitAction::CommitStaged { message },
    ];
    let with_stash = if stashed {
        head.push(
            GitAction::StashPush {
                message: "git-sidequest: unstaged changes"@,
                keep_index: true,
            },
        )
    } else {
        head
    };
    with_stash.push(GitAction::RebaseAttempt { current: target, upstream: orig, onto })
}

/// The whole action sequence of a run whose rebase succeeded: back to the
/// original branch, and one pop for the one push.
pub open spec fn success_actions(
    target: Seq<char>,
    orig: Seq<char>,
    onto: Seq<char>,
    message: Seq<char>,
    stashed: bool,
) -> Seq<GitAction> {
    let pre = mutation_prefix_actions(target, orig, onto, message, stashed);
    if stashed {
        pre + seq![GitAction::Checkout { name: orig }, GitAction::StashPop { position: 0 }]
    } else {
        pre + seq![GitAction::Checkout { name: orig }]
    }
}

/// The whole action sequence of a run whose rebase failed: undo the commit,
/// one pop for the one push, back to the original branch, drop the target
/// branch.
pub open spec fn rollback_actions(
    target: Seq<char>,
    orig: Seq<char>,
    onto: Seq<char>,
    message: Seq<char>,
    stashed: bool,
) -> Seq<GitAction> {
    let pre = mutation_prefix_actions(target, orig, onto, message, stashed);
    if stashed {
        pre + seq![
            GitAction::ResetToParent,
            GitAction::StashPop { position: 0 },
            GitAction::Checkout { name: orig },
            GitAction::DeleteBranch { name: target },
        ]
    } else {
        pre + seq![
            GitAction::ResetToParent,
            GitAction::Checkout { name: orig },
            GitAction::DeleteBranch { name: target },
        ]
    }
}

/// What a run's outcome says about the operations it attempted, over the
/// trace before (`t0`) and after (`t`) the run and the run's own inputs:
/// - the trace only grows, by the actions of this run;
/// - a precondition or query failure attempts no mutation at all;
/// - success is exactly the success sequence, on the given target, onto and
///   message, the original branch being whatever shorthand the HEAD query
///   returned;
/// - a rebase failure is exactly the full rollback sequence;
/// - a mutation failure mid-prefix attempts the documented cleanup and
///   nothing more;
/// - a failure inside the rollback stops the rollback where it failed.
pub open spec fn run_trace_ok(
    t0: Seq<GitAction>,
    t: Seq<GitAction>,
    target: Seq<char>,
    onto: Seq<char>,
    message: Seq<char>,
    r: Result<(), WorkflowError>,
) -> bool {
    let added = t.skip(t0.len() as int);
    &&& t == t0 + added
    &&& match r {
        Ok(_) => exists|stashed: bool, orig: Seq<char>|
            #![auto]
            added == success_actions(target, orig, onto, message, stashed),
        Err(e) => match e {
            WorkflowError::AlreadyInProgress
            | WorkflowError::NoStagedChanges
            | WorkflowError::TargetBranchExists
            | WorkflowError::OntoBranchMissing
            | WorkflowError::NotOnBranch
            | WorkflowError::SignatureUnavailable(_)
            | WorkflowError::StatusQueryFailed(_) => added == Seq::<GitAction>::empty(),
            WorkflowError::BranchCreateFailed(_) => added == seq![
                GitAction::CreateBranch { name: target, at: "HEAD"@ },
            ],
            WorkflowError::CheckoutFailed(_, _) => added == seq![
                GitAction::CreateBranch { name: target, at: "HEAD"@ },
                GitAction::Checkout { name: target },
                GitAction::DeleteBranch { name: target },
            ] || (exists|stashed: bool, orig: Seq<char>|
                #![auto]
                added == mutation_prefix_actions(target, orig, onto, message, stashed).push(
                    GitAction::Checkout { name: orig },
                )),
            WorkflowError::CommitFailed(_, _) => exists|orig: Seq<char>|
                #![auto]
                added == seq![
                    GitAction::CreateBranch { name: target, at: "HEAD"@ },
                    GitAction::Checkout { name: target },
                    GitAction::CommitStaged { message },
                    GitAction::Checkout { name: orig },
                    GitAction::DeleteBranch { name: target },
                ],
            WorkflowError::StashPushFailed(_, _) => exists|orig: Seq<char>|
                #![auto]
                added == seq![
                    GitAction::CreateBranch { name: target, at: "HEAD"@ },
                    GitAction::Checkout { name: target },
                    GitAction::CommitStaged { message },
                    GitAction::StashPush {
                        message: "git-sidequest: unstaged changes"@,
                        keep_index: true,
                    },
                    GitAction::ResetToParent,
                    GitAction::Checkout { name: orig },
                    GitAction::DeleteBranch { name: target },
                ],
            WorkflowError::RebaseFailed(_) => exists|stashed: bool, orig: Seq<char>|
                #![auto]
                added == rollback_actions(target, orig, onto, message, stashed),
            WorkflowError::StashPopFailed(_) => exists|orig: Seq<char>|
                #![auto]
                added == success_actions(target, orig, onto, message, true),
            WorkflowError::RollbackFailed(_, _) => exists|stashed: bool, orig: Seq<char>|
                #![auto]
                mutation_prefix_actions(target, orig, onto, message, stashed).push(
                    GitAction::ResetToParent,
                ).is_prefix_of(added) && added.is_prefix_of(
                    rollback_actions(target, orig, onto, message, stashed),
                ),
        },
    }
}

// --- the step functions ---
//
// Each takes the ghost trace so far and hands back the trace extended by
// the one operation it attempts, operands included; its contract pins that
// extension, so a caller's trace contract pins what every step was handed.

/// Write the index as a tree and commit it on top of HEAD, the same
/// identity as author and committer, advancing HEAD.
pub fn commit_on_head(
    repo: &mut git2::Repository,
    signature: &git2::Signature<'_>,
    msg: &str,
    trace: Ghost<Seq<GitAction>>,
) -> (res: (Result<git2::Oid, git2::Error>, Ghost<Seq<GitAction>>))
    ensures
        res.1@ == trace@.push(GitAction::CommitStaged { message: msg@ }),
{
    let ghost t = trace@.push(GitAction::CommitStaged { message: msg@ });
    let r: &git2::Repository = repo;
    let mut index = match repo_index(r) {
        Ok(i) => i,
        Err(e) => {
            return (Err(e), Ghost(t));
        },
    };
    let oid = match index_write_tree(&mut index) {
        Ok(o) => o,
        Err(e) => {
            return (Err(e), Ghost(t));
        },
    };
    let tree = match find_tree(r, oid) {
        Ok(tr) => tr,
        Err(e) => {
            return (Err(e), Ghost(t));
        },
    };
    let head = match repo_head(r) {
        Ok(h) => h,
        Err(e) => {
            return (Err(e), Ghost(t));
        },
    };
    let parent = match peel_to_commit(&head) {
        Ok(c) => c,
        Err(e) => {
            return (Err(e), Ghost(t));
        },
    };
    (commit_with_parent(r, "HEAD", signature, msg, &tree, &parent), Ghost(t))
}

/// Bring the working tree to the branch's tip and repoint HEAD at the
/// branch (not at the bare commit, so later operations stay on a branch).
pub fn checkout_branch(
    repo: &mut git2::Repository,
    branch: &str,
    trace: Ghost<Seq<GitAction>>,
) -> (res: (Result<(), git2::Error>, Ghost<Seq<GitAction>>))
    ensures
        res.1@ == trace@.push(GitAction::Checkout { name: branch@ }),
{
    let ghost t = trace@.push(GitAction::Checkout { name: branch@ });
    let r: &git2::Repository = repo;
    let object = match revparse_object(r, branch) {
        Ok(o) => o,
        Err(e) => {
            return (Err(e), Ghost(t));
        },
    };
    match checkout_tree(r, &object) {
        Ok(_) => {},
        Err(e) => {
            return (Err(e), Ghost(t));
        },
    }
    let mut refname = "refs/heads/".to_owned();
    refname.append(branch);
    (set_head(r, refname.as_str()), Ghost(t))
}

/// Create a branch pointing at the commit the given reference resolves to.
pub fn create_branch(
    repo: &mut git2::Repository,
    branch: &str,
    target: &str,
    trace: Ghost<Seq<GitAction>>,
) -> (res: (Result<(), git2::Error>, Ghost<Seq<GitAction>>))
    ensures
        res.1@ == trace@.push(GitAction::CreateBranch { name: branch@, at: target@ }),
{
    let ghost t = trace@.push(GitAction::CreateBranch { name: branch@, at: target@ });
    let r: &git2::Repository = repo;
    let reference = match find_reference(r, target) {
        Ok(rf) => rf,
        Err(e) => {
            return (Err(e), Ghost(t));
        },
    };
    let commit = match peel_to_commit(&reference) {
        Ok(c) => c,
        Err(e) => {
            return (Err(e), Ghost(t));
        },
    };
    match create_branch_at(r, branch, &commit, false) {
        Ok(_) => (Ok(()), Ghost(t)),
        Err(e) => (Err(e), Ghost(t)),
    }
}

/// Push a stash entry; with `ignore_staged_files` the index is kept in
/// place and only the unstaged changes (untracked files included) are set
/// aside.
pub fn stash_push(
    repo: &mut git2::Repository,
    signature: &git2::Signature<'_>,
    message: &str,
    ignore_staged_files: bool,
    trace: Ghost<Seq<GitAction>>,
) -> (res: (Result<(), git2::Error>, Ghost<Seq<GitAction>>))
    ensures
        res.1@ == trace@.push(
            GitAction::StashPush { message: message@, keep_index: ignore_staged_files },
        ),
{
    let ghost t = trace@.push(
        GitAction::StashPush { message: message@, keep_index: ignore_staged_files },
    );
    match stash_save(repo, signature, message, ignore_staged_files) {
        Ok(_) => (Ok(()), Ghost(t)),
        Err(e) => (Err(e), Ghost(t)),
    }
}

/// Apply the most recent stash entry (position 0), and drop it only once it
/// applied.
pub fn stash_pop(repo: &mut git2::Repository, trace: Ghost<Seq<GitAction>>) -> (res: (
    Result<(), git2::Error>,
    Ghost<Seq<GitAction>>,
))
    ensures
        res.1@ == trace@.push(GitAction::StashPop { position: 0 }),
{
    let ghost t = trace@.push(GitAction::StashPop { position: 0 });
    match stash_apply(repo, 0) {
        Ok(_) => {},
        Err(e) => {
            return (Err(e), Ghost(t));
        },
    }
    (stash_drop(repo, 0), Ghost(t))
}

/// Replay the commits of `current` since it diverged from `target` onto the
/// tip of `onto`, committing each "pick" with the given identity, in an
/// in-memory session: a failure leaves no on-disk rebase state and no
/// change behind.
pub fn rebase_branch(
    repo: &mut git2::Repository,
    current: &str,
    target: &str,
    onto: &str,
    signature: &git2::Signature<'_>,
    trace: Ghost<Seq<GitAction>>,
) -> (res: (Result<(), git2::Error>, Ghost<Seq<GitAction>>))
    ensures
        res.1@ == trace@.push(
            GitAction::RebaseAttempt { current: current@, upstream: target@, onto: onto@ },
        ),
{
    let ghost t = trace@.push(
        GitAction::RebaseAttempt { current: current@, upstream: target@, onto: onto@ },
    );
    let r: &git2::Repository = repo;
    let current_branch = match find_branch(r, current, false) {
        Ok(b) => b,
        Err(e) => {
            return (Err(e), Ghost(t));
        },
    };
    let target_branch = match find_branch(r, target, false) {
        Ok(b) => b,
        Err(e) => {
            return (Err(e), Ghost(t));
        },
    };
    let onto_branch = match find_branch(r, onto, false) {
        Ok(b) => b,
        Err(e) => {
            return (Err(e), Ghost(t));
        },
    };
    let current_ref = branch_into_reference(current_branch);
    let target_ref = branch_into_reference(target_branch);
    let onto_ref = branch_into_reference(onto_branch);
    let current_ac = match annotated_commit(r, &current_ref) {
        Ok(a) => a,
        Err(e) => {
            return (Err(e), Ghost(t));
        },
    };
    let target_ac = match annotated_commit(r, &target_ref) {
        Ok(a) => a,
        Err(e) => {
            return (Err(e), Ghost(t));
        },
    };
    let onto_ac = match annotated_commit(r, &onto_ref) {
        Ok(a) => a,
        Err(e) => {
            return (Err(e), Ghost(t));
        },
    };
    let mut session = match rebase_init(r, &current_ac, &target_ac, &onto_ac) {
        Ok(s) => s,
        Err(e) => {
            return (Err(e), Ghost(t));
        },
    };
    // the session yields one operation per entry
    let n = rebase_len(&session);
    let mut i: usize = 0;
    while i < n
        invariant
            i <= n,
            t == trace@.push(
                GitAction::RebaseAttempt { current: current@, upstream: target@, onto: onto@ },
            ),
        decreases n - i,
    {
        match rebase_next(&mut session) {
            Err(e) => {
                return (Err(e), Ghost(t));
            },
            Ok(None) => {
                break ;
            },
            Ok(Some(RebaseOpKind::Pick)) => {
                match rebase_commit(&mut session, signature) {
                    Ok(_) => {},
                    Err(e) => {
                        return (Err(e), Ghost(t));
                    },
                }
            },
            Ok(Some(_)) => {},
        }
        i += 1;
    }
    (rebase_finish(&mut session, signature), Ghost(t))
}

/// Undo the newest commit: a soft reset to the parent of HEAD (branch and
/// HEAD move; index and working tree stay, so what the commit captured
/// returns to the index).
fn reset_to_head_parent(repo: &git2::Repository, trace: Ghost<Seq<GitAction>>) -> (res: (
    Result<(), git2::Error>,
    Ghost<Seq<GitAction>>,
))
    ensures
        res.1@ == trace@.push(GitAction::ResetToParent),
{
    let ghost t = trace@.push(GitAction::ResetToParent);
    let head_ref = match find_reference(repo, "HEAD") {
        Ok(h) => h,
        Err(e) => {
            return (Err(e), Ghost(t));
        },
    };
    let head_commit = match peel_to_commit(&head_ref) {
        Ok(c) => c,
        Err(e) => {
            return (Err(e), Ghost(t));
        },
    };
    let parent = match commit_parent(&head_commit, 0) {
        Ok(p) => p,
        Err(e) => {
            return (Err(e), Ghost(t));
        },
    };
    (reset_soft(repo, &parent), Ghost(t))
}

/// Delete the local branch of this name.
fn delete_local_branch(
    repo: &git2::Repository,
    name: &str,
    trace: Ghost<Seq<GitAction>>,
) -> (res: (Result<(), git2::Error>, Ghost<Seq<GitAction>>))
    ensures
        res.1@ == trace@.push(GitAction::DeleteBranch { name: name@ }),
{
    let ghost t = trace@.push(GitAction::DeleteBranch { name: name@ });
    let mut branch = match find_branch(repo, name, false) {
        Ok(b) => b,
        Err(e) => {
            return (Err(e), Ghost(t));
        },
    };
    (branch_delete(&mut branch), Ghost(t))
}

/// The go/no-go precondition checks, composed from the read-only queries in
/// the fixed order of `crate::errors::validate_flags`, short-circuiting on
/// the first failing check.  A failure is one of the four precondition
/// kinds, or the status-query failure.
pub trait ICheckInitialState {
    fn check(&self, repo: &git2::Repository, target_branch: &str, onto_branch: &str) -> (r: Result<
        (),
        WorkflowError,
    >)
        ensures
            r matches Err(e) ==> e is AlreadyInProgress || e is NoStagedChanges
                || e is TargetBranchExists || e is OntoBranchMissing || e is StatusQueryFailed,
    ;
}

/// The precondition checks as the engine runs them: the queries run lazily
/// in the fixed order, each skipped once an earlier check has failed, and
/// the verdict is decided by [`validate_preconditions`].
pub struct InitialStateChecker;

impl ICheckInitialState for InitialStateChecker {
    fn check(&self, repo: &git2::Repository, target_branch: &str, onto_branch: &str) -> (r: Result<
        (),
        WorkflowError,
    >) {
        let mid_operation = is_mid_operation(repo);
        // the later queries are skipped once an earlier check has already
        // failed; the placeholder values cannot influence the verdict, which
        // validate_preconditions alone decides
        let staged = if mid_operation {
            false
        } else {
            match has_staged_changes(repo) {
                Ok(b) => b,
                Err(e) => {
                    return Err(WorkflowError::StatusQueryFailed(e));
                },
            }
        };
        let target_exists = if mid_operation || !staged {
            false
        } else {
            branch_exists(repo, target_branch)
        };
        let onto_exists = if mid_operation || !staged || target_exists {
            true
        } else {
            branch_exists(repo, onto_branch)
        };
        match validate_preconditions(mid_operation, staged, target_exists, onto_exists) {
            Ok(_) => Ok(()),
            Err(k) => {
                if k == ErrorKind::AlreadyInProgress {
                    Err(WorkflowError::AlreadyInProgress)
                } else if k == ErrorKind::NoStagedChanges {
                    Err(WorkflowError::NoStagedChanges)
                } else if k == ErrorKind::TargetBranchExists {
                    Err(WorkflowError::TargetBranchExists)
                } else {
                    Err(WorkflowError::OntoBranchMissing)
                }
            },
        }
    }
}

/// The workflow engine over one repository, borrowed for the duration of
/// the runs made with it.  The ghost `trace` records every mutating
/// operation the runs attempted, in order and with its operands;
/// [`run_trace_ok`] is what each run guarantees about it.
pub struct App {
    /// The repository the runs work on.
    pub repo: git2::Repository,
    /// Ghost record of the mutating operations attempted so far.
    pub trace: Ghost<Seq<GitAction>>,
}

impl App {
    /// Wrap a repository handle.
    pub fn new(repo: git2::Repository) -> (a: App)
        ensures
            a.trace@ == Seq::<GitAction>::empty(),
    {
        App { repo, trace: Ghost(Seq::empty()) }
    }

    /// The author/committer identity from the repository's configuration.
    pub fn default_signature(&self) -> (r: Result<git2::Signature<'static>, git2::Error>) {
        default_signature(&self.repo)
    }

    /// One run of the sidequest workflow: the precondition checks, branch
    /// creation, checkout, commit synthesis, conditional stash, rebase, and
    /// either the success tail or the rollback.  The message must already be
    /// resolved (a buffer collected from an editor goes through
    /// `crate::message::sanitize_commit_message` first); the identity
    /// defaults to the repository's configured one.
    pub fn run(
        &mut self,
        target_branch: &str,
        onto_branch: &str,
        signature: Option<&git2::Signature<'_>>,
        message: &str,
    ) -> (r: Result<(), WorkflowError>)
        ensures
            run_trace_ok(
                old(self).trace@,
                final(self).trace@,
                target_branch@,
                onto_branch@,
                message@,
                r,
            ),
    {
        match signature {
            Some(sig) => self.run_with(target_branch, onto_branch, sig, message),
            None => {
                let sig = match default_signature(&self.repo) {
                    Ok(s) => s,
                    Err(e) => {
                        proof {
                            assert(self.trace@.skip(self.trace@.len() as int)
                                =~= Seq::<GitAction>::empty());
                            assert(self.trace@ =~= self.trace@ + self.trace@.skip(
                                self.trace@.len() as int,
                            ));
                        }
                        return Err(WorkflowError::SignatureUnavailable(e));
                    },
                };
                self.run_with(target_branch, onto_branch, &sig, message)
            },
        }
    }

    /// The run itself, with the identity resolved.
    fn run_with(
        &mut self,
        target_branch: &str,
        onto_branch: &str,
        signature: &git2::Signature<'_>,
        message: &str,
    ) -> (r: Result<(), WorkflowError>)
        ensures
            run_trace_ok(
                old(self).trace@,
                final(self).trace@,
                target_branch@,
                onto_branch@,
                message@,
                r,
            ),
    {
        let ghost t0 = self.trace@;
        proof {
            assert(t0.skip(t0.len() as int) =~= Seq::<GitAction>::empty());
            assert(t0 =~= t0 + t0.skip(t0.len() as int));
        }
        // the precondition checks: fail fast, before any mutation, the
        // verdict decided by the contracted validate_preconditions
        let checker = InitialStateChecker;
        match checker.check(&self.repo, target_branch, onto_branch) {
            Ok(_) => {},
            Err(e) => {
                return Err(e);
            },
        }
        let original_branch = match current_branch_checked(&self.repo) {
            Ok(n) => n,
            Err(e) => {
                return Err(e);
            },
        };
        let unstaged = match has_unstaged_changes(&self.repo) {
            Ok(b) => b,
            Err(e) => {
                return Err(WorkflowError::StatusQueryFailed(e));
            },
        };
        // create the target branch at HEAD
        let (created, tc) = create_branch(&mut self.repo, target_branch, "HEAD", Ghost(self.trace@));
        self.trace = tc;
        match created {
            Ok(_) => {},
            Err(e) => {
                proof {
                    assert(self.trace@.skip(t0.len() as int) =~= seq![
                        GitAction::CreateBranch { name: target_branch@, at: "HEAD"@ },
                    ]);
                    assert(self.trace@ =~= t0 + self.trace@.skip(t0.len() as int));
                }
                return Err(WorkflowError::BranchCreateFailed(e));
            },
        }
        // check the target branch out
        let (checked_out, tc) = checkout_branch(&mut self.repo, target_branch, Ghost(self.trace@));
        self.trace = tc;
        match checked_out {
            Ok(_) => {},
            Err(e) => {
                // best effort: drop the partially created branch, attaching
                // (not swallowing) a failure of the cleanup itself
                let (dropped, td) = delete_local_branch(
                    &self.repo,
                    target_branch,
                    Ghost(self.trace@),
                );
                self.trace = td;
                let secondary = match dropped {
                    Ok(_) => None,
                    Err(e2) => Some(e2),
                };
                proof {
                    assert(self.trace@.skip(t0.len() as int) =~= seq![
                        GitAction::CreateBranch { name: target_branch@, at: "HEAD"@ },
                        GitAction::Checkout { name: target_branch@ },
                        GitAction::DeleteBranch { name: target_branch@ },
                    ]);
                    assert(self.trace@ =~= t0 + self.trace@.skip(t0.len() as int));
                }
                return Err(WorkflowError::CheckoutFailed(e, secondary));
            },
        }
        // commit the staged changes on the new branch
        let (committed, tc) = commit_on_head(
            &mut self.repo,
            signature,
            message,
            Ghost(self.trace@),
        );
        self.trace = tc;
        match committed {
            Ok(_) => {},
            Err(e) => {
                // best effort: return to the original branch and drop the
                // partially created branch, attaching the first cleanup
                // failure
                let mut secondary: Option<git2::Error> = None;
                let (back, tb) = checkout_branch(
                    &mut self.repo,
                    original_branch.as_str(),
                    Ghost(self.trace@),
                );
                self.trace = tb;
                match back {
                    Ok(_) => {},
                    Err(e2) => {
                        secondary = Some(e2);
                    },
                }
                let (dropped, td) = delete_local_branch(
                    &self.repo,
                    target_branch,
                    Ghost(self.trace@),
                );
                self.trace = td;
                match dropped {
                    Ok(_) => {},
                    Err(e2) => {
                        if secondary.is_none() {
                            secondary = Some(e2);
                        }
                    },
                }
                proof {
                    assert(self.trace@.skip(t0.len() as int) =~= seq![
                        GitAction::CreateBranch { name: target_branch@, at: "HEAD"@ },
                        GitAction::Checkout { name: target_branch@ },
                        GitAction::CommitStaged { message: message@ },
                        GitAction::Checkout { name: original_branch@ },
                        GitAction::DeleteBranch { name: target_branch@ },
                    ]);
                    assert(self.trace@ =~= t0 + self.trace@.skip(t0.len() as int));
                }
                return Err(WorkflowError::CommitFailed(e, secondary));
            },
        }
        // set the unstaged changes aside
        if unstaged {
            let (stashed, ts) = stash_push(
                &mut self.repo,
                signature,
                "git-sidequest: unstaged changes",
                true,
                Ghost(self.trace@),
            );
            self.trace = ts;
            match stashed {
                Ok(_) => {},
                Err(e) => {
                    // best effort: undo the commit, return to the original
                    // branch, drop the target branch (nothing was stashed,
                    // so nothing is popped); the first cleanup failure is
                    // attached
                    let mut secondary: Option<git2::Error> = None;
                    let (undone, tu) = reset_to_head_parent(&self.repo, Ghost(self.trace@));
                    self.trace = tu;
                    match undone {
                        Ok(_) => {},
                        Err(e2) => {
                            secondary = Some(e2);
                        },
                    }
                    let (back, tb) = checkout_branch(
                        &mut self.repo,
                        original_branch.as_str(),
                        Ghost(self.trace@),
                    );
                    self.trace = tb;
                    match back {
                        Ok(_) => {},
                        Err(e2) => {
                            if secondary.is_none() {
                                secondary = Some(e2);
                            }
                        },
                    }
                    let (dropped, td) = delete_local_branch(
                        &self.repo,
                        target_branch,
                        Ghost(self.trace@),
                    );
                    self.trace = td;
                    match dropped {
                        Ok(_) => {},
                        Err(e2) => {
                            if secondary.is_none() {
                                secondary = Some(e2);
                            }
                        },
                    }
                    proof {
                        assert(self.trace@.skip(t0.len() as int) =~= seq![
                            GitAction::CreateBranch { name: target_branch@, at: "HEAD"@ },
                            GitAction::Checkout { name: target_branch@ },
                            GitAction::CommitStaged { message: message@ },
                            GitAction::StashPush {
                                message: "git-sidequest: unstaged changes"@,
                                keep_index: true,
                            },
                            GitAction::ResetToParent,
                            GitAction::Checkout { name: original_branch@ },
                            GitAction::DeleteBranch { name: target_branch@ },
                        ]);
                        assert(self.trace@ =~= t0 + self.trace@.skip(t0.len() as int));
                    }
                    return Err(WorkflowError::StashPushFailed(e, secondary));
                },
            }
        }
        // attempt the rebase
        let (rebased, tr) = rebase_branch(
            &mut self.repo,
            target_branch,
            original_branch.as_str(),
            onto_branch,
            signature,
            Ghost(self.trace@),
        );
        self.trace = tr;
        let ghost pre = mutation_prefix_actions(
            target_branch@,
            original_branch@,
            onto_branch@,
            message@,
            unstaged,
        );
        proof {
            assert(self.trace@.skip(t0.len() as int) =~= pre);
        }
        match rebased {
            Ok(_) => {
                // success tail: back to the original branch, restore the
                // unstaged changes
                let (back, tb) = checkout_branch(
                    &mut self.repo,
                    original_branch.as_str(),
                    Ghost(self.trace@),
                );
                self.trace = tb;
                match back {
                    Ok(_) => {},
                    Err(e) => {
                        proof {
                            assert(self.trace@.skip(t0.len() as int) =~= pre.push(
                                GitAction::Checkout { name: original_branch@ },
                            ));
                            assert(self.trace@ =~= t0 + self.trace@.skip(t0.len() as int));
                        }
                        return Err(WorkflowError::CheckoutFailed(e, None));
                    },
                }
                if unstaged {
                    let (popped, tp) = stash_pop(&mut self.repo, Ghost(self.trace@));
                    self.trace = tp;
                    match popped {
                        Ok(_) => {},
                        Err(e) => {
                            proof {
                                assert(self.trace@.skip(t0.len() as int) =~= success_actions(
                                    target_branch@,
                                    original_branch@,
                                    onto_branch@,
                                    message@,
                                    true,
                                ));
                                assert(self.trace@ =~= t0 + self.trace@.skip(t0.len() as int));
                            }
                            return Err(WorkflowError::StashPopFailed(e));
                        },
                    }
                }
                proof {
                    assert(self.trace@.skip(t0.len() as int) =~= success_actions(
                        target_branch@,
                        original_branch@,
                        onto_branch@,
                        message@,
                        unstaged,
                    ));
                    assert(self.trace@ =~= t0 + self.trace@.skip(t0.len() as int));
                }
                Ok(())
            },
            Err(e) => {
                // rollback, still checked out on the target branch: undo the
                // sidequest commit, restore the unstaged changes, return to
                // the original branch, drop the target branch; any failure
                // here is the distinct rollback kind, the rebase failure
                // attached as the primary cause
                let (undone, tu) = reset_to_head_parent(&self.repo, Ghost(self.trace@));
                self.trace = tu;
                match undone {
                    Ok(_) => {},
                    Err(e2) => {
                        proof {
                            assert(self.trace@.skip(t0.len() as int) =~= pre.push(
                                GitAction::ResetToParent,
                            ));
                            assert(self.trace@ =~= t0 + self.trace@.skip(t0.len() as int));
                            assert(pre.push(GitAction::ResetToParent).is_prefix_of(
                                self.trace@.skip(t0.len() as int),
                            ));
                            assert(self.trace@.skip(t0.len() as int).is_prefix_of(
                                rollback_actions(
                                    target_branch@,
                                    original_branch@,
                                    onto_branch@,
                                    message@,
                                    unstaged,
                                ),
                            ));
                        }
                        return Err(WorkflowError::RollbackFailed(e2, e));
                    },
                }
                if unstaged {
                    let (popped, tp) = stash_pop(&mut self.repo, Ghost(self.trace@));
                    self.trace = tp;
                    match popped {
                        Ok(_) => {},
                        Err(e2) => {
                            proof {
                                assert(self.trace@.skip(t0.len() as int) =~= pre
                                    + seq![
                                    GitAction::ResetToParent,
                                    GitAction::StashPop { position: 0 },
                                ]);
                                assert(self.trace@ =~= t0 + self.trace@.skip(t0.len() as int));
                                assert(pre.push(GitAction::ResetToParent).is_prefix_of(
                                    self.trace@.skip(t0.len() as int),
                                ));
                                assert(self.trace@.skip(t0.len() as int).is_prefix_of(
                                    rollback_actions(
                                        target_branch@,
                                        original_branch@,
                                        onto_branch@,
                                        message@,
                                        true,
                                    ),
                                ));
                            }
                            return Err(WorkflowError::RollbackFailed(e2, e));
                        },
                    }
                }
                let (back, tb) = checkout_branch(
                    &mut self.repo,
                    original_branch.as_str(),
                    Ghost(self.trace@),
                );
                self.trace = tb;
                match back {
                    Ok(_) => {},
                    Err(e2) => {
                        proof {
                            let tail = if unstaged {
                                seq![
                                    GitAction::ResetToParent,
                                    GitAction::StashPop { position: 0 },
                                    GitAction::Checkout { name: original_branch@ },
                                ]
                            } else {
                                seq![
                                    GitAction::ResetToParent,
                                    GitAction::Checkout { name: original_branch@ },
                                ]
                            };
                            assert(self.trace@.skip(t0.len() as int) =~= pre + tail);
                            assert(self.trace@ =~= t0 + self.trace@.skip(t0.len() as int));
                            assert(pre.push(GitAction::ResetToParent).is_prefix_of(
                                self.trace@.skip(t0.len() as int),
                            ));
                            assert(self.trace@.skip(t0.len() as int).is_prefix_of(
                                rollback_actions(
                                    target_branch@,
                                    original_branch@,
                                    onto_branch@,
                                    message@,
                                    unstaged,
                                ),
                            ));
                        }
                        return Err(WorkflowError::RollbackFailed(e2, e));
                    },
                }
                let (dropped, td) = delete_local_branch(
                    &self.repo,
                    target_branch,
                    Ghost(self.trace@),
                );
                self.trace = td;
                match dropped {
                    Ok(_) => {},
                    Err(e2) => {
                        proof {
                            assert(self.trace@.skip(t0.len() as int) =~= rollback_actions(
                                target_branch@,
                                original_branch@,
                                onto_branch@,
                                message@,
                                unstaged,
                            ));
                            assert(self.trace@ =~= t0 + self.trace@.skip(t0.len() as int));
                            assert(pre.push(GitAction::ResetToParent).is_prefix_of(
                                self.trace@.skip(t0.len() as int),
                            ));
                            assert(self.trace@.skip(t0.len() as int).is_prefix_of(
                                rollback_actions(
                                    target_branch@,
                                    original_branch@,
                                    onto_branch@,
                                    message@,
                                    unstaged,
                                ),
                            ));
                        }
                        return Err(WorkflowError::RollbackFailed(e2, e));
                    },
                }
                proof {
                    assert(self.trace@.skip(t0.len() as int) =~= rollback_actions(
                        target_branch@,
                        original_branch@,
                        onto_branch@,
                        message@,
                        unstaged,
                    ));
                    assert(self.trace@ =~= t0 + self.trace@.skip(t0.len() as int));
                }
                Err(WorkflowError::RebaseFailed(e))
            },
        }
    }
}

} // verus!
