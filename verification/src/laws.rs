//! The transaction laws of the workflow, proved over `model::spec_run`.
//!
//! Each public proof function here states one guarantee of the engine as a
//! theorem about an arbitrary well-formed repository; together they say the
//! run is an all-or-nothing transaction: a failed precondition check mutates nothing, a
//! failed rebase is rolled back exactly, and a successful run composes the
//! intended final state.

use vstd::prelude::*;

use crate::errors::ErrorKind;
use crate::model::{
    lemma_find_push_absent, lemma_find_push_other, lemma_remove_push_absent,
    lemma_find_is_entry, lemma_set_tip_push_absent, lemma_tree_of_push, seq_find_branch,
    seq_remove_branch,
    seq_set_branch_tip, spec_branch_exists,
    spec_branch_tip, spec_checkout, spec_commit_on_head, spec_create_branch, spec_delete_branch,
    spec_finish_success, spec_head_commit, spec_rebase, spec_reset_to_parent, spec_rollback,
    spec_run, spec_stash_pop, spec_stash_push, spec_validate, head_tree, index_tree, tree_of,
    worktree_tree, wf, BranchRec, ModelCommit, ModelHead, RepoView,
};

verus! {

/// Name of the branch HEAD is on (meaningful only when HEAD is on one).
pub open spec fn orig_name(r: RepoView) -> u64 {
    match r.head {
        ModelHead::OnBranch { name } => name,
        ModelHead::Detached { .. } => arbitrary(),
    }
}

/// Tip of the branch HEAD is on (meaningful only when HEAD is on one).
pub open spec fn orig_tip(r: RepoView) -> usize {
    match seq_find_branch(r.branches, orig_name(r)) {
        Some(b) => b.tip,
        None => arbitrary(),
    }
}

/// The staged change set (meaningful only when one is present).
pub open spec fn staged_delta(r: RepoView) -> u64 {
    match r.index_delta {
        Some(d) => d,
        None => arbitrary(),
    }
}

/// The sidequest commit a run synthesizes: the staged change set on top of
/// the original tip, the caller's identity as both author and committer,
/// and the resolved message.
pub open spec fn sidequest_commit(r: RepoView, sig: u64, msg: u64) -> ModelCommit {
    ModelCommit::Child {
        parent: orig_tip(r),
        delta: staged_delta(r),
        author: sig,
        committer: sig,
        message: msg,
    }
}

/// The repository as it stands right before the rebase attempt of a run
/// that passed the precondition checks: the sidequest commit appended and the target
/// branch pointing at it, HEAD on the target branch, the index captured
/// into that commit, and the unstaged changes (if any) moved to the stash.
pub open spec fn pre_rebase_state(r: RepoView, target: u64, sig: u64, msg: u64) -> RepoView {
    RepoView {
        commits: r.commits.push(sidequest_commit(r, sig, msg)),
        branches: r.branches.push(
            BranchRec { name: target, tip: r.commits.len() as usize },
        ),
        head: ModelHead::OnBranch { name: target },
        index_delta: None,
        worktree_delta: None,
        stash: match r.worktree_delta {
            Some(w) => r.stash.push(w),
            None => r.stash,
        },
        ..r
    }
}

/// What a run that passes the precondition checks has, and what it has done by the time it
/// attempts the rebase: the mutation prefix (branch creation, checkout,
/// commit synthesis, conditional stash) reaches `pre_rebase_state` without
/// failing, and the run's outcome is decided by the rebase attempt from
/// there.
pub proof fn lemma_mutation_prefix(r: RepoView, target: u64, onto: u64, sig: u64, msg: u64, conflict: bool)
    requires
        wf(r),
        spec_validate(r, target, onto) is Ok,
        r.head matches ModelHead::OnBranch { .. },
    ensures
        seq_find_branch(r.branches, target) is None,
        seq_find_branch(r.branches, orig_name(r)) is Some,
        orig_name(r) != target,
        spec_run(r, target, onto, sig, msg, conflict) == (match spec_rebase(
            pre_rebase_state(r, target, sig, msg),
            target,
            orig_name(r),
            onto,
            sig,
            conflict,
        ) {
            Ok(r5) => spec_finish_success(r5, orig_name(r), r.worktree_delta is Some),
            Err(e) => spec_rollback(
                pre_rebase_state(r, target, sig, msg),
                orig_name(r),
                target,
                r.worktree_delta is Some,
            ),
        }),
{
    let orig = orig_name(r);
    let bs = r.branches;
    // the precondition checks passed, so the target name is free and the onto branch known
    assert(seq_find_branch(bs, target) is None);
    // HEAD is on a branch, and well-formedness says that branch exists
    let b_orig = match seq_find_branch(bs, orig) {
        Some(b) => b,
        None => arbitrary(),
    };
    assert(seq_find_branch(bs, orig) is Some);
    assert(orig != target);
    let rec0 = BranchRec { name: target, tip: b_orig.tip };
    // step: create the target branch at HEAD
    let r1 = RepoView { branches: bs.push(rec0), ..r };
    assert(spec_create_branch(r, target, b_orig.tip) == Ok::<RepoView, ErrorKind>(r1));
    // step: check the target branch out (HEAD stays on the same commit, so
    // the uncommitted changes do not block it)
    lemma_find_push_absent(bs, rec0);
    lemma_find_push_other(bs, rec0, orig);
    let r2 = RepoView { head: ModelHead::OnBranch { name: target }, ..r1 };
    assert(spec_head_commit(r1) == Some(b_orig.tip));
    assert(spec_checkout(r1, target) == Ok::<RepoView, ErrorKind>(r2));
    // step: synthesize the sidequest commit from the index
    let n = r.commits.len() as usize;
    let c1 = sidequest_commit(r, sig, msg);
    lemma_set_tip_push_absent(bs, target, b_orig.tip, n);
    let r3 = RepoView {
        commits: r.commits.push(c1),
        branches: bs.push(BranchRec { name: target, tip: n }),
        index_delta: None,
        ..r2
    };
    assert(spec_commit_on_head(r2, sig, msg) == Ok::<RepoView, ErrorKind>(r3));
    // step: set the unstaged changes aside, when there are any
    let r4 = pre_rebase_state(r, target, sig, msg);
    match r.worktree_delta {
        Some(w) => {
            assert(spec_stash_push(r3) == Ok::<RepoView, ErrorKind>(r4)) by {
                assert(RepoView { stash: r3.stash.push(w), worktree_delta: None, ..r3 } =~= r4);
            }
        },
        None => {
            assert(r3 =~= r4);
        },
    }
}

/// Law: the precondition checks reject a run without staged changes, untouched.  For
/// every repository whose state is clean but whose index is clean too, a
/// run reports the missing staged changes and leaves the repository — every
/// branch pointer, HEAD, the index — exactly as it was.
pub proof fn lemma_missing_staged_rejected(
    r: RepoView,
    target: u64,
    onto: u64,
    sig: u64,
    msg: u64,
    conflict: bool,
)
    requires
        r.state_clean,
        r.index_delta is None,
    ensures
        spec_run(r, target, onto, sig, msg, conflict).0 == r,
        spec_run(r, target, onto, sig, msg, conflict).1 == Err::<(), ErrorKind>(
            ErrorKind::NoStagedChanges,
        ),
{
}

/// Law: no clobbering.  For every target name that already names a local or
/// remote-tracking branch (on a clean repository with staged changes), a
/// run reports the collision and performs no mutation at all.
pub proof fn lemma_no_clobber(
    r: RepoView,
    target: u64,
    onto: u64,
    sig: u64,
    msg: u64,
    conflict: bool,
)
    requires
        r.state_clean,
        r.index_delta is Some,
        spec_branch_exists(r, target),
    ensures
        spec_run(r, target, onto, sig, msg, conflict).0 == r,
        spec_run(r, target, onto, sig, msg, conflict).1 == Err::<(), ErrorKind>(
            ErrorKind::TargetBranchExists,
        ),
{
}

/// The rollback path restores the repository exactly, however the rebase
/// attempt failed (a content conflict forced from outside, a missing local
/// onto branch, any other cause): same HEAD, same branch pointers (the
/// target branch gone again), same index and working-tree content, same
/// stash, same operation state.  Only the commit store keeps the now
/// unreachable sidequest commit, as the backend keeps unreachable objects.
pub proof fn lemma_rollback_outcome(
    r: RepoView,
    target: u64,
    onto: u64,
    sig: u64,
    msg: u64,
    conflict: bool,
)
    requires
        wf(r),
        spec_validate(r, target, onto) is Ok,
        r.head matches ModelHead::OnBranch { .. },
        spec_rebase(
            pre_rebase_state(r, target, sig, msg),
            target,
            orig_name(r),
            onto,
            sig,
            conflict,
        ) is Err,
    ensures
        spec_run(r, target, onto, sig, msg, conflict).1 == Err::<(), ErrorKind>(ErrorKind::RebaseFailed),
        spec_run(r, target, onto, sig, msg, conflict).0.commits == r.commits.push(
            sidequest_commit(r, sig, msg),
        ),
        spec_run(r, target, onto, sig, msg, conflict).0.head == r.head,
        spec_run(r, target, onto, sig, msg, conflict).0.branches == r.branches,
        spec_run(r, target, onto, sig, msg, conflict).0.remotes == r.remotes,
        spec_run(r, target, onto, sig, msg, conflict).0.index_delta == r.index_delta,
        spec_run(r, target, onto, sig, msg, conflict).0.worktree_delta == r.worktree_delta,
        spec_run(r, target, onto, sig, msg, conflict).0.stash == r.stash,
        spec_run(r, target, onto, sig, msg, conflict).0.state_clean == r.state_clean,
        !spec_branch_exists(spec_run(r, target, onto, sig, msg, conflict).0, target),
        index_tree(spec_run(r, target, onto, sig, msg, conflict).0) == index_tree(r),
        worktree_tree(spec_run(r, target, onto, sig, msg, conflict).0) == worktree_tree(r),
{
    lemma_mutation_prefix(r, target, onto, sig, msg, conflict);
    let orig = orig_name(r);
    let bs = r.branches;
    let b_orig = match seq_find_branch(bs, orig) {
        Some(b) => b,
        None => arbitrary(),
    };
    let d = staged_delta(r);
    let n = r.commits.len() as usize;
    let c1 = sidequest_commit(r, sig, msg);
    let m = pre_rebase_state(r, target, sig, msg);
    let rec0 = BranchRec { name: target, tip: b_orig.tip };
    let rec1 = BranchRec { name: target, tip: n };
    // the in-memory rebase failed and mutated nothing; rollback runs from `m`
    // undo the sidequest commit: the target branch returns to the original
    // tip and the staged delta returns to the index
    lemma_find_push_absent(bs, rec1);
    assert(m.commits[n as int] == c1);
    lemma_set_tip_push_absent(bs, target, n, b_orig.tip);
    let ra = RepoView { branches: bs.push(rec0), index_delta: Some(d), ..m };
    assert(spec_reset_to_parent(m) == Ok::<RepoView, ErrorKind>(ra)) by {
        assert(RepoView {
            branches: seq_set_branch_tip(m.branches, target, b_orig.tip),
            index_delta: Some(d),
            ..m
        } =~= ra);
    }
    // restore the unstaged changes from the stash, if any were set aside
    let rb = RepoView { worktree_delta: r.worktree_delta, stash: r.stash, ..ra };
    match r.worktree_delta {
        Some(w) => {
            assert(ra.stash.last() == w);
            assert(ra.stash.drop_last() =~= r.stash);
            assert(spec_stash_pop(ra) == Ok::<RepoView, ErrorKind>(rb)) by {
                assert(RepoView {
                    worktree_delta: Some(ra.stash.last()),
                    stash: ra.stash.drop_last(),
                    ..ra
                } =~= rb);
            }
        },
        None => {
            assert(ra =~= rb);
        },
    }
    // return to the original branch: the target tip equals its tip again,
    // so the restored uncommitted changes do not block the checkout
    lemma_find_push_other(bs, rec0, orig);
    lemma_find_push_absent(bs, rec0);
    assert(spec_head_commit(rb) == Some(b_orig.tip));
    let rc = RepoView { head: ModelHead::OnBranch { name: orig }, ..rb };
    assert(spec_checkout(rb, orig) == Ok::<RepoView, ErrorKind>(rc));
    // delete the target branch pointer: the branch list is the original one
    lemma_remove_push_absent(bs, rec0);
    let rd = RepoView { branches: bs, ..rc };
    assert(spec_delete_branch(rc, target) == Ok::<RepoView, ErrorKind>(rd)) by {
        assert(RepoView { branches: seq_remove_branch(rc.branches, target), ..rc } =~= rd);
    }
    assert(spec_rollback(m, orig, target, r.worktree_delta is Some) == (
        rd,
        Err::<(), ErrorKind>(ErrorKind::RebaseFailed),
    ));
    // the index and working tree resolve to the same content as before:
    // HEAD resolves to the same commit, whose tree the appended (and now
    // unreachable) sidequest commit did not change
    assert(spec_head_commit(rd) == Some(b_orig.tip));
    assert(b_orig.tip < r.commits.len()) by {
        lemma_find_is_entry(bs, orig);
        let i = choose|i: int|
            0 <= i < bs.len() && bs[i] == seq_find_branch(bs, orig)->Some_0;
        assert(r.branches[i].tip < r.commits.len());
    }
    lemma_tree_of_push(r.commits, c1, b_orig.tip as int);
}

/// Law: rollback exactness.  For every well-formed repository that passes
/// the precondition checks with HEAD on a branch, when the rebase step is
/// forced to fail, the run reports the rebase failure and the repository is
/// back where it started: same HEAD, same branch pointers (the target
/// branch gone again), same index and working-tree content, same stash,
/// state clean.
pub proof fn lemma_rollback_exactness(r: RepoView, target: u64, onto: u64, sig: u64, msg: u64)
    requires
        wf(r),
        spec_validate(r, target, onto) is Ok,
        r.head matches ModelHead::OnBranch { .. },
    ensures
        spec_run(r, target, onto, sig, msg, true).1 == Err::<(), ErrorKind>(ErrorKind::RebaseFailed),
        spec_run(r, target, onto, sig, msg, true).0.head == r.head,
        spec_run(r, target, onto, sig, msg, true).0.branches == r.branches,
        spec_run(r, target, onto, sig, msg, true).0.remotes == r.remotes,
        spec_run(r, target, onto, sig, msg, true).0.index_delta == r.index_delta,
        spec_run(r, target, onto, sig, msg, true).0.worktree_delta == r.worktree_delta,
        spec_run(r, target, onto, sig, msg, true).0.stash == r.stash,
        spec_run(r, target, onto, sig, msg, true).0.state_clean == r.state_clean,
        !spec_branch_exists(spec_run(r, target, onto, sig, msg, true).0, target),
        index_tree(spec_run(r, target, onto, sig, msg, true).0) == index_tree(r),
        worktree_tree(spec_run(r, target, onto, sig, msg, true).0) == worktree_tree(r),
{
    lemma_rollback_outcome(r, target, onto, sig, msg, true);
}

/// Law: every run leaves the repository fully resolved, whatever the rebase
/// outcome.  On a well-formed repository with HEAD on a branch, after any
/// run HEAD is back where it was, the operation-state flag is as it was,
/// the working-tree delta is as it was, and the stash holds exactly the
/// entries it held: every stash push the run performed is matched by
/// exactly one pop, on every exit path.
pub proof fn lemma_run_leaves_resolved(
    r: RepoView,
    target: u64,
    onto: u64,
    sig: u64,
    msg: u64,
    conflict: bool,
)
    requires
        wf(r),
        r.head matches ModelHead::OnBranch { .. },
    ensures
        spec_run(r, target, onto, sig, msg, conflict).0.head == r.head,
        spec_run(r, target, onto, sig, msg, conflict).0.state_clean == r.state_clean,
        spec_run(r, target, onto, sig, msg, conflict).0.stash == r.stash,
        spec_run(r, target, onto, sig, msg, conflict).0.worktree_delta == r.worktree_delta,
{
    if spec_validate(r, target, onto) is Ok {
        lemma_mutation_prefix(r, target, onto, sig, msg, conflict);
        let orig = orig_name(r);
        let bs = r.branches;
        let b_orig = match seq_find_branch(bs, orig) {
            Some(b) => b,
            None => arbitrary(),
        };
        let d = staged_delta(r);
        let n = r.commits.len() as usize;
        let n2 = (r.commits.len() + 1) as usize;
        let m = pre_rebase_state(r, target, sig, msg);
        let rec1 = BranchRec { name: target, tip: n };
        let rec2 = BranchRec { name: target, tip: n2 };
        match spec_rebase(m, target, orig, onto, sig, conflict) {
            Err(_) => {
                // the rollback restores every field the claim speaks of
                lemma_rollback_outcome(r, target, onto, sig, msg, conflict);
            },
            Ok(r5) => {
                // the rebase moved only the target branch pointer and added
                // one replayed commit
                lemma_find_push_absent(bs, rec1);
                lemma_find_push_other(bs, rec1, orig);
                lemma_find_push_other(bs, rec1, onto);
                let on = match spec_branch_tip(m, onto) {
                    Some(t) => t,
                    None => arbitrary(),
                };
                let c2 = ModelCommit::Child {
                    parent: on,
                    delta: d,
                    author: sig,
                    committer: sig,
                    message: msg,
                };
                lemma_set_tip_push_absent(bs, target, n, n2);
                assert(r5 =~= (RepoView {
                    commits: m.commits.push(c2),
                    branches: bs.push(rec2),
                    ..m
                }));
                // the success tail returns to the original branch (index and
                // working tree are clean, nothing blocks the checkout) and
                // pops the one entry this run pushed, if it pushed one
                lemma_find_push_other(bs, rec2, orig);
                let r6 = RepoView { head: ModelHead::OnBranch { name: orig }, ..r5 };
                assert(spec_checkout(r5, orig) == Ok::<RepoView, ErrorKind>(r6));
                match r.worktree_delta {
                    Some(w) => {
                        assert(r6.stash.last() == w);
                        assert(r6.stash.drop_last() =~= r.stash);
                        let r7 = RepoView { worktree_delta: Some(w), stash: r.stash, ..r6 };
                        assert(spec_stash_pop(r6) == Ok::<RepoView, ErrorKind>(r7)) by {
                            assert(RepoView {
                                worktree_delta: Some(r6.stash.last()),
                                stash: r6.stash.drop_last(),
                                ..r6
                            } =~= r7);
                        }
                        assert(spec_finish_success(r5, orig, true) == (
                            r7,
                            Ok::<(), ErrorKind>(()),
                        ));
                    },
                    None => {
                        assert(spec_finish_success(r5, orig, false) == (
                            r6,
                            Ok::<(), ErrorKind>(()),
                        ));
                    },
                }
            },
        }
    } else {
        // a precondition failure returns before any mutation
    }
}

/// Law: failure is idempotent.  A second run right after a rolled-back
/// failed run, with the same arguments, passes or fails the precondition
/// checks exactly as the first run did; and if its rebase fails again, it
/// reports the same failure, rolled back the same way.
pub proof fn lemma_idempotent_failure(r: RepoView, target: u64, onto: u64, sig: u64, msg: u64)
    requires
        wf(r),
        spec_validate(r, target, onto) is Ok,
        r.head matches ModelHead::OnBranch { .. },
        r.commits.len() + 1 < usize::MAX,
    ensures
        spec_validate(spec_run(r, target, onto, sig, msg, true).0, target, onto) == spec_validate(
            r,
            target,
            onto,
        ),
        spec_run(spec_run(r, target, onto, sig, msg, true).0, target, onto, sig, msg, true).1
            == Err::<(), ErrorKind>(ErrorKind::RebaseFailed),
{
    lemma_rollback_outcome(r, target, onto, sig, msg, true);
    let r2 = spec_run(r, target, onto, sig, msg, true).0;
    // the rolled-back repository is well-formed again: one appended commit
    // whose parent is the original tip, every other field as before
    let c1 = sidequest_commit(r, sig, msg);
    assert(orig_tip(r) < r.commits.len()) by {
        lemma_find_is_entry(r.branches, orig_name(r));
        let i = choose|i: int|
            0 <= i < r.branches.len() && r.branches[i] == seq_find_branch(
                r.branches,
                orig_name(r),
            )->Some_0;
        assert(r.branches[i].tip < r.commits.len());
    }
    assert(wf(r2)) by {
        assert forall|j: int|
            0 <= j < r2.commits.len() implies (#[trigger] r2.commits[j]
            matches ModelCommit::Child { parent, .. } ==> parent < j) by {
            if j < r.commits.len() {
                assert(r2.commits[j] == r.commits[j]);
            } else {
                assert(r2.commits[j] == c1);
            }
        }
        assert(forall|i: int|
            0 <= i < r2.branches.len() ==> #[trigger] r2.branches[i].tip < r2.commits.len());
    }
    // so a second run with the same arguments takes the same path and is
    // rolled back the same way
    lemma_rollback_outcome(r2, target, onto, sig, msg, true);
}

/// Law: success composition, staged changes only.  On a well-formed
/// repository that passes the precondition checks with HEAD on a branch, a
/// clean working tree, and the onto branch present locally, a conflict-free
/// run succeeds; afterwards the target branch exists and its tip is one
/// single new commit on top of the onto branch's pre-run tip, carrying the
/// staged delta, stamped with the caller's identity as both author and
/// committer and with the resolved message, its tree the pre-run staged
/// change set layered onto the onto tree; the original branch is checked
/// out and no branch but the target moved.
pub proof fn lemma_success_composition(r: RepoView, target: u64, onto: u64, sig: u64, msg: u64)
    requires
        wf(r),
        spec_validate(r, target, onto) is Ok,
        r.head matches ModelHead::OnBranch { .. },
        r.worktree_delta is None,
        spec_branch_tip(r, onto) is Some,
    ensures
        spec_run(r, target, onto, sig, msg, false).1 == Ok::<(), ErrorKind>(()),
        spec_run(r, target, onto, sig, msg, false).0.commits == r.commits.push(
            sidequest_commit(r, sig, msg),
        ).push(
            ModelCommit::Child {
                parent: spec_branch_tip(r, onto).unwrap(),
                delta: staged_delta(r),
                author: sig,
                committer: sig,
                message: msg,
            },
        ),
        spec_branch_tip(spec_run(r, target, onto, sig, msg, false).0, target) == Some(
            (r.commits.len() + 1) as usize,
        ),
        tree_of(spec_run(r, target, onto, sig, msg, false).0.commits, r.commits.len() as int + 1) == tree_of(
            r.commits,
            spec_branch_tip(r, onto).unwrap() as int,
        ).apply(staged_delta(r)),
        spec_run(r, target, onto, sig, msg, false).0.head == r.head,
        forall|nm: u64|
            nm != target ==> spec_branch_tip(spec_run(r, target, onto, sig, msg, false).0, nm)
                == spec_branch_tip(r, nm),
        spec_run(r, target, onto, sig, msg, false).0.index_delta is None,
        spec_run(r, target, onto, sig, msg, false).0.worktree_delta is None,
        spec_run(r, target, onto, sig, msg, false).0.stash == r.stash,
        spec_run(r, target, onto, sig, msg, false).0.state_clean == r.state_clean,
{
    lemma_mutation_prefix(r, target, onto, sig, msg, false);
    let orig = orig_name(r);
    let bs = r.branches;
    let b_orig = match seq_find_branch(bs, orig) {
        Some(b) => b,
        None => arbitrary(),
    };
    let d = staged_delta(r);
    let n = r.commits.len() as usize;
    let n2 = (r.commits.len() + 1) as usize;
    let c1 = sidequest_commit(r, sig, msg);
    let m = pre_rebase_state(r, target, sig, msg);
    let rec1 = BranchRec { name: target, tip: n };
    let rec2 = BranchRec { name: target, tip: n2 };
    let ot = spec_branch_tip(r, onto).unwrap();
    let c2 = ModelCommit::Child { parent: ot, delta: d, author: sig, committer: sig, message: msg };
    // the onto name is a different branch than the target (the target name
    // was free), so it still resolves to its pre-run tip
    assert(onto != target);
    lemma_find_push_absent(bs, rec1);
    lemma_find_push_other(bs, rec1, orig);
    lemma_find_push_other(bs, rec1, onto);
    // the rebase replays the one commit the target is ahead by, onto the
    // onto tip
    assert(m.commits[n as int] == c1);
    lemma_set_tip_push_absent(bs, target, n, n2);
    let r5 = RepoView { commits: m.commits.push(c2), branches: bs.push(rec2), ..m };
    assert(spec_rebase(m, target, orig, onto, sig, false) == Ok::<RepoView, ErrorKind>(r5)) by {
        assert(RepoView {
            commits: m.commits.push(c2),
            branches: seq_set_branch_tip(m.branches, target, n2),
            ..m
        } =~= r5);
    }
    // the success tail returns to the original branch; index and working
    // tree are clean, so nothing blocks the checkout and there is no stash
    // entry to pop
    lemma_find_push_other(bs, rec2, orig);
    let r6 = RepoView { head: ModelHead::OnBranch { name: orig }, ..r5 };
    assert(spec_checkout(r5, orig) == Ok::<RepoView, ErrorKind>(r6));
    assert(spec_finish_success(r5, orig, false) == (r6, Ok::<(), ErrorKind>(())));
    // the new tip's tree: the staged delta layered onto the onto tree,
    // which the two appended commits did not change
    assert(b_orig.tip < r.commits.len()) by {
        lemma_find_is_entry(bs, orig);
        let i = choose|i: int|
            0 <= i < bs.len() && bs[i] == seq_find_branch(bs, orig)->Some_0;
        assert(r.branches[i].tip < r.commits.len());
    }
    assert(ot < r.commits.len()) by {
        lemma_find_is_entry(bs, onto);
        let i = choose|i: int|
            0 <= i < bs.len() && bs[i] == seq_find_branch(bs, onto)->Some_0;
        assert(r.branches[i].tip < r.commits.len());
    }
    let cs2 = r.commits.push(c1);
    assert(forall|j: int|
        0 <= j < cs2.len() ==> (#[trigger] cs2[j] matches ModelCommit::Child { parent, .. }
            ==> parent < j)) by {
        assert forall|j: int|
            0 <= j < cs2.len() implies (#[trigger] cs2[j] matches ModelCommit::Child {
            parent,
            ..
        } ==> parent < j) by {
            if j < r.commits.len() {
                assert(cs2[j] == r.commits[j]);
            } else {
                assert(cs2[j] == c1);
            }
        }
    }
    assert(r6.commits[n2 as int] == c2);
    lemma_tree_of_push(cs2, c2, ot as int);
    lemma_tree_of_push(r.commits, c1, ot as int);
    assert(tree_of(r6.commits, n2 as int) == tree_of(r.commits, ot as int).apply(d));
    // no branch but the target moved
    lemma_find_push_absent(bs, rec2);
    assert forall|nm: u64| nm != target implies spec_branch_tip(r6, nm) == spec_branch_tip(
        r,
        nm,
    ) by {
        lemma_find_push_other(bs, rec2, nm);
    }
}

/// Law: unstaged round trip.  On a well-formed repository that passes the
/// precondition checks with HEAD on a branch, unstaged changes present, and the onto
/// branch present locally, a conflict-free run succeeds, the unstaged
/// changes are back in the working tree unchanged, and no stash entry the
/// run pushed remains.
pub proof fn lemma_unstaged_round_trip(r: RepoView, target: u64, onto: u64, sig: u64, msg: u64)
    requires
        wf(r),
        spec_validate(r, target, onto) is Ok,
        r.head matches ModelHead::OnBranch { .. },
        r.worktree_delta is Some,
        spec_branch_tip(r, onto) is Some,
    ensures
        spec_run(r, target, onto, sig, msg, false).1 == Ok::<(), ErrorKind>(()),
        spec_run(r, target, onto, sig, msg, false).0.worktree_delta == r.worktree_delta,
        spec_run(r, target, onto, sig, msg, false).0.stash == r.stash,
        spec_run(r, target, onto, sig, msg, false).0.head == r.head,
{
    lemma_mutation_prefix(r, target, onto, sig, msg, false);
    let orig = orig_name(r);
    let bs = r.branches;
    let b_orig = match seq_find_branch(bs, orig) {
        Some(b) => b,
        None => arbitrary(),
    };
    let d = staged_delta(r);
    let w = match r.worktree_delta {
        Some(w) => w,
        None => arbitrary(),
    };
    let n = r.commits.len() as usize;
    let n2 = (r.commits.len() + 1) as usize;
    let c1 = sidequest_commit(r, sig, msg);
    let m = pre_rebase_state(r, target, sig, msg);
    let rec1 = BranchRec { name: target, tip: n };
    let rec2 = BranchRec { name: target, tip: n2 };
    let ot = spec_branch_tip(r, onto).unwrap();
    let c2 = ModelCommit::Child { parent: ot, delta: d, author: sig, committer: sig, message: msg };
    assert(onto != target);
    lemma_find_push_absent(bs, rec1);
    lemma_find_push_other(bs, rec1, orig);
    lemma_find_push_other(bs, rec1, onto);
    assert(m.commits[n as int] == c1);
    lemma_set_tip_push_absent(bs, target, n, n2);
    let r5 = RepoView { commits: m.commits.push(c2), branches: bs.push(rec2), ..m };
    assert(spec_rebase(m, target, orig, onto, sig, false) == Ok::<RepoView, ErrorKind>(r5)) by {
        assert(RepoView {
            commits: m.commits.push(c2),
            branches: seq_set_branch_tip(m.branches, target, n2),
            ..m
        } =~= r5);
    }
    // back on the original branch, then the one stash entry this run pushed
    // is popped: the unstaged delta returns and the stash is as before
    lemma_find_push_other(bs, rec2, orig);
    let r6 = RepoView { head: ModelHead::OnBranch { name: orig }, ..r5 };
    assert(spec_checkout(r5, orig) == Ok::<RepoView, ErrorKind>(r6));
    assert(r6.stash.last() == w);
    assert(r6.stash.drop_last() =~= r.stash);
    let r7 = RepoView { worktree_delta: Some(w), stash: r.stash, ..r6 };
    assert(spec_stash_pop(r6) == Ok::<RepoView, ErrorKind>(r7)) by {
        assert(RepoView {
            worktree_delta: Some(r6.stash.last()),
            stash: r6.stash.drop_last(),
            ..r6
        } =~= r7);
    }
    assert(spec_finish_success(r5, orig, true) == (r7, Ok::<(), ErrorKind>(())));
}

} // verus!
