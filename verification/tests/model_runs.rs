//! Scenario tests of the workflow over the abstract repository model.

use git_sidequest::model::{BranchRec, ModelCommit, ModelHead, ModelRepo};
use git_sidequest::ErrorKind;

const MAIN: u64 = 1;
const DEVELOP: u64 = 2;
const FEATURE: u64 = 3;

const BASE_TREE: u64 = 10;
const DEVELOP_DELTA: u64 = 11;
const STAGED: u64 = 12;
const UNSTAGED: u64 = 13;

const AUTHOR: u64 = 20;
const SIG: u64 = 21;
const MSG: u64 = 30;
const MSG0: u64 = 31;

/// A repository on `MAIN` (one root commit), with `DEVELOP` one commit
/// ahead, and the given staged and unstaged change sets.
fn fixture(staged: Option<u64>, unstaged: Option<u64>) -> ModelRepo {
    ModelRepo {
        commits: vec![
            ModelCommit::Root { base: BASE_TREE },
            ModelCommit::Child {
                parent: 0,
                delta: DEVELOP_DELTA,
                author: AUTHOR,
                committer: AUTHOR,
                message: MSG0,
            },
        ],
        branches: vec![
            BranchRec { name: MAIN, tip: 0 },
            BranchRec { name: DEVELOP, tip: 1 },
        ],
        remotes: vec![],
        head: ModelHead::OnBranch { name: MAIN },
        index_delta: staged,
        worktree_delta: unstaged,
        stash: vec![],
        state_clean: true,
    }
}

#[test]
fn scenario_staged_only_success() {
    // one staged edit, no unstaged changes, develop exists without
    // conflicting history: the run succeeds, the feature branch holds the
    // staged edit replayed on top of develop, main is untouched and
    // checked out
    let mut repo = fixture(Some(STAGED), None);
    let r = repo.run(FEATURE, DEVELOP, SIG, MSG, false);
    assert_eq!(r, Ok(()));
    assert_eq!(repo.branch_tip(FEATURE), Some(3));
    // the replayed sidequest commit sits on develop's tip, carries the
    // staged change set, and is stamped with the caller's identity as both
    // author and committer and with the resolved message
    assert_eq!(
        repo.commits[3],
        ModelCommit::Child {
            parent: 1,
            delta: STAGED,
            author: SIG,
            committer: SIG,
            message: MSG,
        }
    );
    assert_eq!(repo.branch_tip(MAIN), Some(0));
    assert_eq!(repo.head, ModelHead::OnBranch { name: MAIN });
    assert_eq!(repo.index_delta, None);
    assert_eq!(repo.worktree_delta, None);
    assert_eq!(repo.stash.len(), 0);
    assert!(repo.state_clean);
}

#[test]
fn validation_rejects_missing_staged_changes() {
    let mut repo = fixture(None, None);
    let before_branches = repo.branches.clone();
    let r = repo.run(FEATURE, DEVELOP, SIG, MSG, false);
    assert_eq!(r, Err(ErrorKind::NoStagedChanges));
    assert_eq!(repo.branches, before_branches);
    assert_eq!(repo.head, ModelHead::OnBranch { name: MAIN });
    assert_eq!(repo.commits.len(), 2);
    assert_eq!(repo.index_delta, None);
}

#[test]
fn validation_rejects_mid_operation() {
    let mut repo = fixture(Some(STAGED), None);
    repo.state_clean = false;
    let r = repo.run(FEATURE, DEVELOP, SIG, MSG, false);
    assert_eq!(r, Err(ErrorKind::AlreadyInProgress));
    assert_eq!(repo.commits.len(), 2);
}

#[test]
fn validation_rejects_existing_local_target() {
    let mut repo = fixture(Some(STAGED), None);
    let r = repo.run(MAIN, DEVELOP, SIG, MSG, false);
    assert_eq!(r, Err(ErrorKind::TargetBranchExists));
    assert_eq!(repo.commits.len(), 2);
    assert_eq!(repo.branches.len(), 2);
}

#[test]
fn validation_rejects_existing_remote_target() {
    let mut repo = fixture(Some(STAGED), None);
    repo.remotes.push(FEATURE);
    let r = repo.run(FEATURE, DEVELOP, SIG, MSG, false);
    assert_eq!(r, Err(ErrorKind::TargetBranchExists));
    assert_eq!(repo.branches.len(), 2);
}

#[test]
fn validation_rejects_missing_onto() {
    let mut repo = fixture(Some(STAGED), None);
    let r = repo.run(FEATURE, 99, SIG, MSG, false);
    assert_eq!(r, Err(ErrorKind::OntoBranchMissing));
    assert_eq!(repo.branches.len(), 2);
}

#[test]
fn detached_head_is_rejected_after_validation() {
    let mut repo = fixture(Some(STAGED), None);
    repo.head = ModelHead::Detached { commit: 0 };
    let r = repo.run(FEATURE, DEVELOP, SIG, MSG, false);
    assert_eq!(r, Err(ErrorKind::NotOnBranch));
    assert_eq!(repo.branches.len(), 2);
}

#[test]
fn rollback_restores_everything() {
    // the rebase is forced to fail: afterwards the current branch, the
    // branch list (the target gone), index, working tree, stash and
    // operation state all read exactly as before the run
    let mut repo = fixture(Some(STAGED), Some(UNSTAGED));
    let before_branches = repo.branches.clone();
    let r = repo.run(FEATURE, DEVELOP, SIG, MSG, true);
    assert_eq!(r, Err(ErrorKind::RebaseFailed));
    assert_eq!(repo.branches, before_branches);
    assert_eq!(repo.branch_tip(FEATURE), None);
    assert_eq!(repo.head, ModelHead::OnBranch { name: MAIN });
    assert_eq!(repo.index_delta, Some(STAGED));
    assert_eq!(repo.worktree_delta, Some(UNSTAGED));
    assert_eq!(repo.stash.len(), 0);
    assert!(repo.state_clean);
}

#[test]
fn unstaged_changes_round_trip() {
    // with both staged and unstaged changes, a successful run restores the
    // unstaged edits unchanged and leaves no stash entry behind
    let mut repo = fixture(Some(STAGED), Some(UNSTAGED));
    let r = repo.run(FEATURE, DEVELOP, SIG, MSG, false);
    assert_eq!(r, Ok(()));
    assert_eq!(repo.worktree_delta, Some(UNSTAGED));
    assert_eq!(repo.stash.len(), 0);
    assert_eq!(repo.head, ModelHead::OnBranch { name: MAIN });
    assert_eq!(repo.branch_tip(FEATURE), Some(3));
}

#[test]
fn failed_run_repeats_identically() {
    // a second run right after a rolled-back failure, same arguments,
    // produces the same outcome as the first
    let mut repo = fixture(Some(STAGED), Some(UNSTAGED));
    let first = repo.run(FEATURE, DEVELOP, SIG, MSG, true);
    assert_eq!(first, Err(ErrorKind::RebaseFailed));
    let second = repo.run(FEATURE, DEVELOP, SIG, MSG, true);
    assert_eq!(second, Err(ErrorKind::RebaseFailed));
}

#[test]
fn model_queries_read_the_state() {
    let repo = fixture(Some(STAGED), None);
    assert!(repo.has_staged_changes());
    assert!(!repo.has_unstaged_changes());
    assert!(!repo.is_mid_operation());
    assert_eq!(repo.current_branch_name(), Some(MAIN));
    assert!(repo.branch_exists(MAIN));
    assert!(repo.branch_exists(DEVELOP));
    assert!(!repo.branch_exists(FEATURE));
    assert_eq!(repo.head_commit(), Some(0));
}

#[test]
fn model_stash_is_lifo_and_balanced() {
    let mut repo = fixture(Some(STAGED), Some(UNSTAGED));
    assert_eq!(repo.stash_push(), Ok(()));
    assert_eq!(repo.worktree_delta, None);
    assert_eq!(repo.stash, vec![UNSTAGED]);
    // popping onto a clean working tree restores the delta and empties the
    // stash again
    assert_eq!(repo.stash_pop(), Ok(()));
    assert_eq!(repo.worktree_delta, Some(UNSTAGED));
    assert_eq!(repo.stash.len(), 0);
    // a second pop has nothing to apply
    repo.worktree_delta = None;
    assert_eq!(repo.stash_pop(), Err(ErrorKind::StashPopFailed));
}

#[test]
fn model_operations_report_their_failures() {
    let mut repo = fixture(None, None);
    // creating a taken name fails without touching the list
    assert_eq!(repo.create_branch(MAIN, 0), Err(ErrorKind::BranchCreateFailed));
    assert_eq!(repo.branches.len(), 2);
    // checking a missing branch out fails
    assert_eq!(repo.checkout_branch(FEATURE), Err(ErrorKind::CheckoutFailed));
    // a dirty checkout that would move HEAD fails
    repo.index_delta = Some(STAGED);
    assert_eq!(repo.checkout_branch(DEVELOP), Err(ErrorKind::CheckoutFailed));
    // committing with a clean index fails
    repo.index_delta = None;
    assert_eq!(repo.commit_on_head(SIG, MSG), Err(ErrorKind::CommitFailed));
    // committing with a detached HEAD fails
    repo.index_delta = Some(STAGED);
    repo.head = ModelHead::Detached { commit: 0 };
    assert_eq!(repo.commit_on_head(SIG, MSG), Err(ErrorKind::CommitFailed));
    // stashing a clean working tree fails
    repo.head = ModelHead::OnBranch { name: MAIN };
    assert_eq!(repo.stash_push(), Err(ErrorKind::StashPushFailed));
    // undoing a root commit fails with the rollback kind
    repo.index_delta = None;
    assert_eq!(repo.reset_to_head_parent(), Err(ErrorKind::RollbackFailed));
    // deleting a missing branch, or the checked-out one, fails likewise
    assert_eq!(repo.delete_branch(FEATURE), Err(ErrorKind::RollbackFailed));
    assert_eq!(repo.delete_branch(MAIN), Err(ErrorKind::RollbackFailed));
    // rebasing branches that do not exist fails
    assert_eq!(
        repo.rebase_branch(FEATURE, MAIN, DEVELOP, SIG, false),
        Err(ErrorKind::RebaseFailed)
    );
}

#[test]
fn model_commit_and_reset_are_inverse() {
    let mut repo = fixture(Some(STAGED), None);
    assert_eq!(repo.commit_on_head(SIG, MSG), Ok(()));
    assert_eq!(repo.branch_tip(MAIN), Some(2));
    assert_eq!(repo.index_delta, None);
    assert_eq!(repo.reset_to_head_parent(), Ok(()));
    assert_eq!(repo.branch_tip(MAIN), Some(0));
    assert_eq!(repo.index_delta, Some(STAGED));
}
