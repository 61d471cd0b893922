//! Abstract repository model.
//!
//! The engine's transactional behaviour is specified and proved over this
//! model: a repository is a commit graph (each commit a parent plus the
//! change set it introduced), a list of local branch pointers, the names of
//! remote-tracking branches, a HEAD, the staged and unstaged change sets as
//! deltas over the checked-out tree, a stash list, and the operation-state
//! flag.  Branch names and change sets are abstracted to integers: the
//! workflow never looks inside either, it only moves them around.
//!
//! The same decision logic (`errors::validate_flags`, the fixed step order,
//! the rollback path) also drives the git-backed engine; here every step is
//! executable on plain values, so the transaction laws can be stated and
//! proved, and scenarios can be run as ordinary tests.

use vstd::prelude::*;
use vstd::pervasive::VecAdditionalExecFns;

use crate::errors::{validate_flags, validate_preconditions, ErrorKind};

verus! {

/// A commit: either a root snapshot, or one change set on top of a parent,
/// stamped with the author and committer identities and the message it was
/// made with.  Commits are stored append-only in `ModelRepo::commits`; a
/// commit is identified by its position there.
#[derive(Clone, Copy, Debug, PartialEq, Eq, Structural)]
pub enum ModelCommit {
    Root { base: u64 },
    Child { parent: usize, delta: u64, author: u64, committer: u64, message: u64 },
}

/// A local branch: a named pointer to a commit.
#[derive(Clone, Copy, Debug, PartialEq, Eq, Structural)]
pub struct BranchRec {
    pub name: u64,
    pub tip: usize,
}

/// Where HEAD points: the top of a local branch, or a bare commit.
#[derive(Clone, Copy, Debug, PartialEq, Eq, Structural)]
pub enum ModelHead {
    OnBranch { name: u64 },
    Detached { commit: usize },
}

/// The mutable repository state the engine borrows for one run.
pub struct ModelRepo {
    /// Append-only commit store; a commit's id is its index here.
    pub commits: Vec<ModelCommit>,
    /// Local branches; names are unique.
    pub branches: Vec<BranchRec>,
    /// Names of remote-tracking branches (only existence matters).
    pub remotes: Vec<u64>,
    /// HEAD pointer.
    pub head: ModelHead,
    /// Staged changes: a delta over the checked-out tree, `None` when the
    /// index is clean.
    pub index_delta: Option<u64>,
    /// Unstaged changes: a delta over the index, `None` when the working
    /// tree is clean.
    pub worktree_delta: Option<u64>,
    /// Stash list, most recent entry last; each entry holds the working-tree
    /// delta it captured.
    pub stash: Vec<u64>,
    /// Operation-state flag: `true` unless a merge, rebase or cherry-pick is
    /// unfinished.
    pub state_clean: bool,
}

/// Spec-level image of a `ModelRepo`.
#[verifier::ext_equal]
pub struct RepoView {
    pub commits: Seq<ModelCommit>,
    pub branches: Seq<BranchRec>,
    pub remotes: Seq<u64>,
    pub head: ModelHead,
    pub index_delta: Option<u64>,
    pub worktree_delta: Option<u64>,
    pub stash: Seq<u64>,
    pub state_clean: bool,
}

impl View for ModelRepo {
    type V = RepoView;

    open spec fn view(&self) -> RepoView {
        RepoView {
            commits: self.commits@,
            branches: self.branches@,
            remotes: self.remotes@,
            head: self.head,
            index_delta: self.index_delta,
            worktree_delta: self.worktree_delta,
            stash: self.stash@,
            state_clean: self.state_clean,
        }
    }
}

/// The first branch record of the given name, if any.
pub open spec fn seq_find_branch(bs: Seq<BranchRec>, name: u64) -> Option<BranchRec>
    decreases bs.len(),
{
    if bs.len() == 0 {
        None
    } else if bs[0].name == name {
        Some(bs[0])
    } else {
        seq_find_branch(bs.drop_first(), name)
    }
}

/// The branch list with the first record of the given name removed.
pub open spec fn seq_remove_branch(bs: Seq<BranchRec>, name: u64) -> Seq<BranchRec>
    decreases bs.len(),
{
    if bs.len() == 0 {
        bs
    } else if bs[0].name == name {
        bs.drop_first()
    } else {
        seq![bs[0]] + seq_remove_branch(bs.drop_first(), name)
    }
}

/// The branch list with the tip of the named branch replaced.
pub open spec fn seq_set_branch_tip(bs: Seq<BranchRec>, name: u64, tip: usize) -> Seq<BranchRec>
    decreases bs.len(),
{
    if bs.len() == 0 {
        bs
    } else if bs[0].name == name {
        seq![BranchRec { name, tip }] + bs.drop_first()
    } else {
        seq![bs[0]] + seq_set_branch_tip(bs.drop_first(), name, tip)
    }
}

/// A branch of this name exists, locally or as a remote-tracking branch.
pub open spec fn spec_branch_exists(r: RepoView, name: u64) -> bool {
    seq_find_branch(r.branches, name) is Some || r.remotes.contains(name)
}

/// Tip of the named local branch.
pub open spec fn spec_branch_tip(r: RepoView, name: u64) -> Option<usize> {
    match seq_find_branch(r.branches, name) {
        Some(b) => Some(b.tip),
        None => None,
    }
}

/// A tree, resolved: the root snapshot a history started from and the
/// change sets applied on the way, in order.
#[verifier::ext_equal]
pub struct TreeAbs {
    pub base: u64,
    pub deltas: Seq<u64>,
}

impl TreeAbs {
    /// The tree with one more change set applied.
    pub open spec fn apply(self, delta: u64) -> TreeAbs {
        TreeAbs { base: self.base, deltas: self.deltas.push(delta) }
    }

    /// The tree with an optional change set applied.
    pub open spec fn apply_opt(self, delta: Option<u64>) -> TreeAbs {
        match delta {
            Some(d) => self.apply(d),
            None => self,
        }
    }
}

/// The tree of commit `i`: its root snapshot with every delta on the path
/// from the root applied in order.
pub open spec fn tree_of(cs: Seq<ModelCommit>, i: int) -> TreeAbs
    decreases i when 0 <= i
{
    if 0 <= i < cs.len() {
        match cs[i] {
            ModelCommit::Root { base } => TreeAbs { base, deltas: seq![] },
            ModelCommit::Child { parent, delta, .. } => {
                if parent < i {
                    tree_of(cs, parent as int).apply(delta)
                } else {
                    arbitrary()
                }
            },
        }
    } else {
        arbitrary()
    }
}

/// Commit HEAD resolves to.
pub open spec fn spec_head_commit(r: RepoView) -> Option<usize> {
    match r.head {
        ModelHead::OnBranch { name } => spec_branch_tip(r, name),
        ModelHead::Detached { commit } => Some(commit),
    }
}

/// Tree of the commit HEAD resolves to.
pub open spec fn head_tree(r: RepoView) -> TreeAbs {
    match spec_head_commit(r) {
        Some(c) => tree_of(r.commits, c as int),
        None => arbitrary(),
    }
}

/// Content of the index: the checked-out tree with the staged delta applied.
pub open spec fn index_tree(r: RepoView) -> TreeAbs {
    head_tree(r).apply_opt(r.index_delta)
}

/// Content of the working tree: the index with the unstaged delta applied.
pub open spec fn worktree_tree(r: RepoView) -> TreeAbs {
    index_tree(r).apply_opt(r.worktree_delta)
}

/// Well-formedness: the commit store is addressable, every child commit's
/// parent precedes it in the store, branch names are unique, every branch
/// tip is a stored commit, and HEAD resolves to a stored commit.
pub open spec fn wf(r: RepoView) -> bool {
    &&& r.commits.len() < usize::MAX
    &&& forall|i: int|
        0 <= i < r.commits.len() ==> (#[trigger] r.commits[i] matches ModelCommit::Child {
            parent,
            ..
        } ==> parent < i)
    &&& forall|i: int, j: int|
        0 <= i < j < r.branches.len() ==> r.branches[i].name != r.branches[j].name
    &&& forall|i: int| 0 <= i < r.branches.len() ==> #[trigger] r.branches[i].tip < r.commits.len()
    &&& match r.head {
        ModelHead::OnBranch { name } => seq_find_branch(r.branches, name) is Some,
        ModelHead::Detached { commit } => commit < r.commits.len(),
    }
}

// --- the component operations, at the specification level ---
//
// Each returns the repository after the operation, or the error kind the
// operation fails with; a failing operation leaves the repository unchanged.

/// Create a local branch pointing at commit `at`.  Fails if the name is
/// already taken locally.
pub open spec fn spec_create_branch(r: RepoView, name: u64, at: usize) -> Result<
    RepoView,
    ErrorKind,
> {
    if seq_find_branch(r.branches, name) is Some {
        Err(ErrorKind::BranchCreateFailed)
    } else {
        Ok(RepoView { branches: r.branches.push(BranchRec { name, tip: at }), ..r })
    }
}

/// Check a local branch out: repoint HEAD at the branch and bring the
/// working tree to its tip.  Fails if the branch does not exist, or if
/// uncommitted changes would block the tree update (the model is
/// conservative: any staged or unstaged change blocks a checkout that moves
/// HEAD to a different commit).
pub open spec fn spec_checkout(r: RepoView, name: u64) -> Result<RepoView, ErrorKind> {
    match seq_find_branch(r.branches, name) {
        None => Err(ErrorKind::CheckoutFailed),
        Some(b) => {
            if (r.index_delta is Some || r.worktree_delta is Some) && spec_head_commit(r) != Some(
                b.tip,
            ) {
                Err(ErrorKind::CheckoutFailed)
            } else {
                Ok(RepoView { head: ModelHead::OnBranch { name }, ..r })
            }
        },
    }
}

/// Synthesize a commit from the index on top of HEAD, with the given
/// identity as both author and committer and the given message, and advance
/// the current branch to it.  Fails when HEAD is not on a branch or the
/// index is clean.
pub open spec fn spec_commit_on_head(r: RepoView, sig: u64, msg: u64) -> Result<
    RepoView,
    ErrorKind,
> {
    match r.head {
        ModelHead::OnBranch { name } => match (spec_branch_tip(r, name), r.index_delta) {
            (Some(tip), Some(d)) => Ok(
                RepoView {
                    commits: r.commits.push(
                        ModelCommit::Child {
                            parent: tip,
                            delta: d,
                            author: sig,
                            committer: sig,
                            message: msg,
                        },
                    ),
                    branches: seq_set_branch_tip(r.branches, name, r.commits.len() as usize),
                    index_delta: None,
                    ..r
                },
            ),
            _ => Err(ErrorKind::CommitFailed),
        },
        ModelHead::Detached { .. } => Err(ErrorKind::CommitFailed),
    }
}

/// Push the unstaged changes onto the stash, leaving the index untouched.
/// Fails when there is nothing eligible to stash.
pub open spec fn spec_stash_push(r: RepoView) -> Result<RepoView, ErrorKind> {
    match r.worktree_delta {
        Some(d) => Ok(RepoView { stash: r.stash.push(d), worktree_delta: None, ..r }),
        None => Err(ErrorKind::StashPushFailed),
    }
}

/// Apply and drop the most recent stash entry.  Fails when the list is
/// empty, or when applying onto an already dirty working tree (the model is
/// conservative: that counts as a conflict).
pub open spec fn spec_stash_pop(r: RepoView) -> Result<RepoView, ErrorKind> {
    if r.stash.len() > 0 && r.worktree_delta is None {
        Ok(RepoView { worktree_delta: Some(r.stash.last()), stash: r.stash.drop_last(), ..r })
    } else {
        Err(ErrorKind::StashPopFailed)
    }
}

/// Undo the newest commit of the current branch: the branch returns to the
/// commit's parent and the change set the commit had captured returns to
/// the index.  The exact inverse of `spec_commit_on_head`; it is only ever
/// used from the rollback path, so it fails with the rollback kind.
pub open spec fn spec_reset_to_parent(r: RepoView) -> Result<RepoView, ErrorKind> {
    match r.head {
        ModelHead::OnBranch { name } => match (spec_branch_tip(r, name), r.index_delta) {
            (Some(tip), None) => {
                if 0 <= tip < r.commits.len() {
                    match r.commits[tip as int] {
                        ModelCommit::Child { parent, delta, .. } => Ok(
                            RepoView {
                                branches: seq_set_branch_tip(r.branches, name, parent),
                                index_delta: Some(delta),
                                ..r
                            },
                        ),
                        ModelCommit::Root { .. } => Err(ErrorKind::RollbackFailed),
                    }
                } else {
                    Err(ErrorKind::RollbackFailed)
                }
            },
            _ => Err(ErrorKind::RollbackFailed),
        },
        ModelHead::Detached { .. } => Err(ErrorKind::RollbackFailed),
    }
}

/// Delete a local branch pointer.  Fails if the branch does not exist or is
/// the one checked out; it is only ever used from the rollback path, so it
/// fails with the rollback kind.
pub open spec fn spec_delete_branch(r: RepoView, name: u64) -> Result<RepoView, ErrorKind> {
    if seq_find_branch(r.branches, name) is Some && r.head != (ModelHead::OnBranch { name }) {
        Ok(RepoView { branches: seq_remove_branch(r.branches, name), ..r })
    } else {
        Err(ErrorKind::RollbackFailed)
    }
}

/// Rebase `current` onto `onto`, replaying the commits unique to `current`
/// since it diverged from `upstream`.  The engine only ever rebases a
/// branch it has just created exactly one commit ahead of `upstream`, so
/// the model replays exactly that shape and fails on any other.  The
/// replayed commit keeps the original authorship and message; the committer
/// identity is stamped fresh from `sig`.  Whether replaying hits a content
/// conflict is an input (`conflict`), because the model abstracts file
/// contents away.  The session is in-memory: a failed rebase changes
/// nothing.
pub open spec fn spec_rebase(
    r: RepoView,
    current: u64,
    upstream: u64,
    onto: u64,
    sig: u64,
    conflict: bool,
) -> Result<RepoView, ErrorKind> {
    match (spec_branch_tip(r, current), spec_branch_tip(r, upstream), spec_branch_tip(r, onto)) {
        (Some(cur), Some(up), Some(on)) => {
            if conflict || !(0 <= cur < r.commits.len()) {
                Err(ErrorKind::RebaseFailed)
            } else {
                match r.commits[cur as int] {
                    ModelCommit::Child { parent, delta, author, committer: _, message } => {
                        if parent == up {
                            Ok(
                                RepoView {
                                    commits: r.commits.push(
                                        ModelCommit::Child {
                                            parent: on,
                                            delta,
                                            author,
                                            committer: sig,
                                            message,
                                        },
                                    ),
                                    branches: seq_set_branch_tip(
                                        r.branches,
                                        current,
                                        r.commits.len() as usize,
                                    ),
                                    ..r
                                },
                            )
                        } else {
                            Err(ErrorKind::RebaseFailed)
                        }
                    },
                    ModelCommit::Root { .. } => Err(ErrorKind::RebaseFailed),
                }
            }
        },
        _ => Err(ErrorKind::RebaseFailed),
    }
}

// --- the workflow, at the specification level ---

/// The precondition decision over the repository: an unfinished operation, then
/// missing staged changes, then a target name collision (local or remote),
/// then a missing onto branch.
pub open spec fn spec_validate(r: RepoView, target: u64, onto: u64) -> Result<(), ErrorKind> {
    validate_flags(
        !r.state_clean,
        r.index_delta is Some,
        spec_branch_exists(r, target),
        spec_branch_exists(r, onto),
    )
}

/// The success tail of a run: return to the original branch and, if a stash
/// was pushed, pop it.
pub open spec fn spec_finish_success(r: RepoView, orig: u64, pop: bool) -> (
    RepoView,
    Result<(), ErrorKind>,
) {
    match spec_checkout(r, orig) {
        Err(e) => (r, Err(e)),
        Ok(ra) => {
            if pop {
                match spec_stash_pop(ra) {
                    Ok(rb) => (rb, Ok(())),
                    Err(e) => (ra, Err(e)),
                }
            } else {
                (ra, Ok(()))
            }
        },
    }
}

/// The rollback path, entered from the rebase failure while still checked
/// out on `target`: undo the sidequest commit, pop the stash if one was
/// pushed, return to the original branch, and delete the target branch.
/// When every undo step succeeds the rebase failure is surfaced; when one
/// fails, the distinct rollback kind is surfaced instead, since the
/// repository is then neither restored nor in the intended final state.
pub open spec fn spec_rollback(r: RepoView, orig: u64, target: u64, pop: bool) -> (
    RepoView,
    Result<(), ErrorKind>,
) {
    match spec_reset_to_parent(r) {
        Err(_) => (r, Err(ErrorKind::RollbackFailed)),
        Ok(ra) => {
            let popped = if pop {
                spec_stash_pop(ra)
            } else {
                Ok(ra)
            };
            match popped {
                Err(_) => (ra, Err(ErrorKind::RollbackFailed)),
                Ok(rb) => match spec_checkout(rb, orig) {
                    Err(_) => (rb, Err(ErrorKind::RollbackFailed)),
                    Ok(rc) => match spec_delete_branch(rc, target) {
                        Err(_) => (rc, Err(ErrorKind::RollbackFailed)),
                        Ok(rd) => (rd, Err(ErrorKind::RebaseFailed)),
                    },
                },
            }
        },
    }
}

/// One whole run of the workflow: the precondition checks, then branch
/// creation, checkout, commit synthesis (with `sig` as author and committer
/// and `msg` as the message), the conditional stash, the rebase attempt,
/// and either the success tail or the rollback.  `rebase_conflict` says
/// whether the rebase attempt hits a content conflict.
pub open spec fn spec_run(
    r: RepoView,
    target: u64,
    onto: u64,
    sig: u64,
    msg: u64,
    rebase_conflict: bool,
) -> (RepoView, Result<(), ErrorKind>) {
    match spec_validate(r, target, onto) {
        Err(e) => (r, Err(e)),
        Ok(_) => match r.head {
            ModelHead::Detached { .. } => (r, Err(ErrorKind::NotOnBranch)),
            ModelHead::OnBranch { name: orig } => match spec_branch_tip(r, orig) {
                None => (r, Err(ErrorKind::NotOnBranch)),
                Some(orig_tip) => {
                    let unstaged = r.worktree_delta is Some;
                    match spec_create_branch(r, target, orig_tip) {
                        Err(e) => (r, Err(e)),
                        Ok(r1) => match spec_checkout(r1, target) {
                            Err(e) => (r1, Err(e)),
                            Ok(r2) => match spec_commit_on_head(r2, sig, msg) {
                                Err(e) => (r2, Err(e)),
                                Ok(r3) => {
                                    let pushed = if unstaged {
                                        spec_stash_push(r3)
                                    } else {
                                        Ok(r3)
                                    };
                                    match pushed {
                                        Err(e) => (r3, Err(e)),
                                        Ok(r4) => match spec_rebase(
                                            r4,
                                            target,
                                            orig,
                                            onto,
                                            sig,
                                            rebase_conflict,
                                        ) {
                                            Ok(r5) => spec_finish_success(r5, orig, unstaged),
                                            Err(_) => spec_rollback(r4, orig, target, unstaged),
                                        },
                                    }
                                },
                            },
                        },
                    }
                },
            },
        },
    }
}

// --- facts about branch-list search and update ---

/// Finding the name a scan stopped at: the first hit is what
/// `seq_find_branch` returns.
pub proof fn lemma_find_first(bs: Seq<BranchRec>, name: u64, i: int)
    requires
        0 <= i < bs.len(),
        bs[i].name == name,
        forall|j: int| 0 <= j < i ==> bs[j].name != name,
    ensures
        seq_find_branch(bs, name) == Some(bs[i]),
    decreases i,
{
    if i > 0 {
        lemma_find_first(bs.drop_first(), name, i - 1);
    }
}

/// A scan that hit nothing: `seq_find_branch` returns nothing.
pub proof fn lemma_find_none(bs: Seq<BranchRec>, name: u64)
    requires
        forall|j: int| 0 <= j < bs.len() ==> bs[j].name != name,
    ensures
        seq_find_branch(bs, name) is None,
    decreases bs.len(),
{
    if bs.len() > 0 {
        lemma_find_none(bs.drop_first(), name);
    }
}

/// What the search returns is an entry of the list.
pub proof fn lemma_find_is_entry(bs: Seq<BranchRec>, name: u64)
    requires
        seq_find_branch(bs, name) is Some,
    ensures
        exists|i: int|
            0 <= i < bs.len() && bs[i] == seq_find_branch(bs, name)->Some_0,
    decreases bs.len(),
{
    if bs[0].name == name {
        assert(bs[0] == seq_find_branch(bs, name)->Some_0);
    } else {
        lemma_find_is_entry(bs.drop_first(), name);
        let j = choose|j: int|
            0 <= j < bs.drop_first().len() && bs.drop_first()[j] == seq_find_branch(
                bs.drop_first(),
                name,
            )->Some_0;
        assert(bs[j + 1] == seq_find_branch(bs, name)->Some_0);
    }
}

/// Pushing a record of a fresh name: the search finds that record.
pub proof fn lemma_find_push_absent(bs: Seq<BranchRec>, rec: BranchRec)
    requires
        seq_find_branch(bs, rec.name) is None,
    ensures
        seq_find_branch(bs.push(rec), rec.name) == Some(rec),
    decreases bs.len(),
{
    if bs.len() == 0 {
        assert(bs.push(rec)[0] == rec);
    } else {
        lemma_find_push_absent(bs.drop_first(), rec);
        assert(bs.push(rec).drop_first() =~= bs.drop_first().push(rec));
    }
}

/// Pushing a record leaves the search for any other name alone.
pub proof fn lemma_find_push_other(bs: Seq<BranchRec>, rec: BranchRec, name: u64)
    requires
        name != rec.name,
    ensures
        seq_find_branch(bs.push(rec), name) == seq_find_branch(bs, name),
    decreases bs.len(),
{
    if bs.len() == 0 {
        assert(bs.push(rec)[0] == rec);
        assert(bs.push(rec).drop_first() =~= Seq::<BranchRec>::empty());
        assert(seq_find_branch(Seq::<BranchRec>::empty(), name) is None);
    } else {
        assert(bs.push(rec)[0] == bs[0]);
        lemma_find_push_other(bs.drop_first(), rec, name);
        assert(bs.push(rec).drop_first() =~= bs.drop_first().push(rec));
    }
}

/// Retipping a just-pushed fresh name only rewrites that one record.
pub proof fn lemma_set_tip_push_absent(bs: Seq<BranchRec>, name: u64, t0: usize, t1: usize)
    requires
        seq_find_branch(bs, name) is None,
    ensures
        seq_set_branch_tip(bs.push(BranchRec { name, tip: t0 }), name, t1) == bs.push(
            BranchRec { name, tip: t1 },
        ),
    decreases bs.len(),
{
    if bs.len() == 0 {
        assert(seq_set_branch_tip(bs.push(BranchRec { name, tip: t0 }), name, t1) =~= bs.push(
            BranchRec { name, tip: t1 },
        ));
    } else {
        lemma_set_tip_push_absent(bs.drop_first(), name, t0, t1);
        assert(bs.push(BranchRec { name, tip: t0 }).drop_first() =~= bs.drop_first().push(
            BranchRec { name, tip: t0 },
        ));
        assert(seq_set_branch_tip(bs.push(BranchRec { name, tip: t0 }), name, t1) =~= bs.push(
            BranchRec { name, tip: t1 },
        ));
    }
}

/// Removing a just-pushed fresh name restores the original list.
pub proof fn lemma_remove_push_absent(bs: Seq<BranchRec>, rec: BranchRec)
    requires
        seq_find_branch(bs, rec.name) is None,
    ensures
        seq_remove_branch(bs.push(rec), rec.name) == bs,
    decreases bs.len(),
{
    if bs.len() == 0 {
        assert(seq_remove_branch(bs.push(rec), rec.name) =~= bs);
    } else {
        lemma_remove_push_absent(bs.drop_first(), rec);
        assert(bs.push(rec).drop_first() =~= bs.drop_first().push(rec));
        assert(seq_remove_branch(bs.push(rec), rec.name) =~= bs);
    }
}

/// Retipping the first hit of a scan is an update at its position.
pub proof fn lemma_set_tip_at_first(bs: Seq<BranchRec>, name: u64, i: int, tip: usize)
    requires
        0 <= i < bs.len(),
        bs[i].name == name,
        forall|j: int| 0 <= j < i ==> bs[j].name != name,
    ensures
        seq_set_branch_tip(bs, name, tip) == bs.update(i, BranchRec { name, tip }),
    decreases i,
{
    if i == 0 {
        assert(seq_set_branch_tip(bs, name, tip) =~= bs.update(0, BranchRec { name, tip }));
    } else {
        lemma_set_tip_at_first(bs.drop_first(), name, i - 1, tip);
        assert(seq_set_branch_tip(bs, name, tip) =~= bs.update(i, BranchRec { name, tip }));
    }
}

/// Removing the first hit of a scan is a removal at its position.
pub proof fn lemma_remove_at_first(bs: Seq<BranchRec>, name: u64, i: int)
    requires
        0 <= i < bs.len(),
        bs[i].name == name,
        forall|j: int| 0 <= j < i ==> bs[j].name != name,
    ensures
        seq_remove_branch(bs, name) == bs.remove(i),
    decreases i,
{
    if i == 0 {
        assert(seq_remove_branch(bs, name) =~= bs.remove(0));
    } else {
        lemma_remove_at_first(bs.drop_first(), name, i - 1);
        assert(seq_remove_branch(bs, name) =~= bs.remove(i));
    }
}

/// Appending a commit to the store does not change the tree of any commit
/// already stored.
pub proof fn lemma_tree_of_push(cs: Seq<ModelCommit>, c: ModelCommit, i: int)
    requires
        0 <= i < cs.len(),
        forall|j: int|
            0 <= j < cs.len() ==> (#[trigger] cs[j] matches ModelCommit::Child { parent, .. }
                ==> parent < j),
    ensures
        tree_of(cs.push(c), i) == tree_of(cs, i),
    decreases i,
{
    assert(cs.push(c)[i] == cs[i]);
    match cs[i] {
        ModelCommit::Root { .. } => {},
        ModelCommit::Child { parent, .. } => {
            lemma_tree_of_push(cs, c, parent as int);
        },
    }
}

// --- the executable model ---

/// How the state and result of an executable operation relate to its
/// specification: on success the new state is the specified one, on failure
/// the state is untouched and the specified kind is returned.
pub open spec fn op_result(
    pre: RepoView,
    post: RepoView,
    r: Result<(), ErrorKind>,
    s: Result<RepoView, ErrorKind>,
) -> bool {
    match s {
        Ok(v) => r is Ok && post == v,
        Err(e) => r == Err::<(), ErrorKind>(e) && post == pre,
    }
}

impl ModelRepo {
    /// Position of the first local branch of this name.
    fn find_branch_idx(&self, name: u64) -> (r: Option<usize>)
        ensures
            match r {
                Some(i) => i < self.branches@.len() && self.branches@[i as int].name == name
                    && seq_find_branch(self@.branches, name) == Some(self.branches@[i as int])
                    && forall|j: int| 0 <= j < i ==> self.branches@[j].name != name,
                None => seq_find_branch(self@.branches, name) is None,
            },
    {
        let mut i: usize = 0;
        while i < self.branches.len()
            invariant
                i <= self.branches@.len(),
                forall|j: int| 0 <= j < i ==> self.branches@[j].name != name,
            decreases self.branches@.len() - i,
        {
            if self.branches[i].name == name {
                proof {
                    lemma_find_first(self.branches@, name, i as int);
                }
                return Some(i);
            }
            i += 1;
        }
        proof {
            lemma_find_none(self.branches@, name);
        }
        None
    }

    /// Tip of the named local branch.
    pub fn branch_tip(&self, name: u64) -> (r: Option<usize>)
        ensures
            r == spec_branch_tip(self@, name),
    {
        match self.find_branch_idx(name) {
            Some(i) => Some(self.branches[i].tip),
            None => None,
        }
    }

    /// A branch of this name exists, locally or as a remote-tracking branch.
    pub fn branch_exists(&self, name: u64) -> (b: bool)
        ensures
            b == spec_branch_exists(self@, name),
    {
        if self.find_branch_idx(name).is_some() {
            return true;
        }
        let mut i: usize = 0;
        while i < self.remotes.len()
            invariant
                i <= self.remotes@.len(),
                forall|j: int| 0 <= j < i ==> self.remotes@[j] != name,
            decreases self.remotes@.len() - i,
        {
            if self.remotes[i] == name {
                assert(self.remotes@.contains(name)) by {
                    assert(self.remotes@[i as int] == name);
                }
                return true;
            }
            i += 1;
        }
        assert(!self.remotes@.contains(name));
        false
    }

    /// An operation (merge, rebase, cherry-pick) is already in progress.
    pub fn is_mid_operation(&self) -> (b: bool)
        ensures
            b == !self@.state_clean,
    {
        !self.state_clean
    }

    /// The index holds changes.
    pub fn has_staged_changes(&self) -> (b: bool)
        ensures
            b == (self@.index_delta is Some),
    {
        self.index_delta.is_some()
    }

    /// The working tree holds changes beyond the index.
    pub fn has_unstaged_changes(&self) -> (b: bool)
        ensures
            b == (self@.worktree_delta is Some),
    {
        self.worktree_delta.is_some()
    }

    /// Name of the branch HEAD points to, or nothing when HEAD is detached.
    pub fn current_branch_name(&self) -> (r: Option<u64>)
        ensures
            match self@.head {
                ModelHead::OnBranch { name } => r == Some(name),
                ModelHead::Detached { .. } => r is None,
            },
    {
        match self.head {
            ModelHead::OnBranch { name } => Some(name),
            ModelHead::Detached { .. } => None,
        }
    }

    /// Commit HEAD resolves to.
    pub fn head_commit(&self) -> (r: Option<usize>)
        ensures
            r == spec_head_commit(self@),
    {
        match self.head {
            ModelHead::OnBranch { name } => match self.find_branch_idx(name) {
                Some(i) => Some(self.branches[i].tip),
                None => None,
            },
            ModelHead::Detached { commit } => Some(commit),
        }
    }

    /// Create a local branch pointing at commit `at`.
    pub fn create_branch(&mut self, name: u64, at: usize) -> (r: Result<(), ErrorKind>)
        ensures
            op_result(old(self)@, final(self)@, r, spec_create_branch(old(self)@, name, at)),
    {
        if self.find_branch_idx(name).is_some() {
            Err(ErrorKind::BranchCreateFailed)
        } else {
            self.branches.push(BranchRec { name, tip: at });
            proof {
                assert(self@ =~= (RepoView {
                    branches: old(self)@.branches.push(BranchRec { name, tip: at }),
                    ..old(self)@
                }));
            }
            Ok(())
        }
    }

    /// Check a local branch out.
    pub fn checkout_branch(&mut self, name: u64) -> (r: Result<(), ErrorKind>)
        ensures
            op_result(old(self)@, final(self)@, r, spec_checkout(old(self)@, name)),
    {
        match self.find_branch_idx(name) {
            None => Err(ErrorKind::CheckoutFailed),
            Some(i) => {
                let tip = self.branches[i].tip;
                if self.index_delta.is_some() || self.worktree_delta.is_some() {
                    let moves = match self.head_commit() {
                        Some(h) => h != tip,
                        None => true,
                    };
                    if moves {
                        return Err(ErrorKind::CheckoutFailed);
                    }
                }
                self.head = ModelHead::OnBranch { name };
                proof {
                    assert(self@ =~= (RepoView { head: ModelHead::OnBranch { name }, ..old(self)@ }));
                }
                Ok(())
            },
        }
    }

    /// Synthesize a commit from the index on top of HEAD, with the given
    /// identity as both author and committer and the given message, and
    /// advance the current branch to it.
    pub fn commit_on_head(&mut self, sig: u64, msg: u64) -> (r: Result<(), ErrorKind>)
        ensures
            op_result(old(self)@, final(self)@, r, spec_commit_on_head(old(self)@, sig, msg)),
    {
        let name = match self.head {
            ModelHead::OnBranch { name } => name,
            ModelHead::Detached { .. } => {
                return Err(ErrorKind::CommitFailed);
            },
        };
        let i = match self.find_branch_idx(name) {
            Some(i) => i,
            None => {
                return Err(ErrorKind::CommitFailed);
            },
        };
        let d = match self.index_delta {
            Some(d) => d,
            None => {
                return Err(ErrorKind::CommitFailed);
            },
        };
        let tip = self.branches[i].tip;
        let newid = self.commits.len();
        let c = ModelCommit::Child { parent: tip, delta: d, author: sig, committer: sig, message: msg };
        self.commits.push(c);
        self.branches.set(i, BranchRec { name, tip: newid });
        self.index_delta = None;
        proof {
            lemma_set_tip_at_first(old(self).branches@, name, i as int, newid);
            assert(self@ =~= (RepoView {
                commits: old(self)@.commits.push(c),
                branches: seq_set_branch_tip(old(self)@.branches, name, newid),
                index_delta: None,
                ..old(self)@
            }));
        }
        Ok(())
    }

    /// Push the unstaged changes onto the stash, leaving the index alone.
    pub fn stash_push(&mut self) -> (r: Result<(), ErrorKind>)
        ensures
            op_result(old(self)@, final(self)@, r, spec_stash_push(old(self)@)),
    {
        match self.worktree_delta {
            Some(d) => {
                self.stash.push(d);
                self.worktree_delta = None;
                proof {
                    assert(self@ =~= (RepoView {
                        stash: old(self)@.stash.push(d),
                        worktree_delta: None,
                        ..old(self)@
                    }));
                }
                Ok(())
            },
            None => Err(ErrorKind::StashPushFailed),
        }
    }

    /// Apply and drop the most recent stash entry.
    pub fn stash_pop(&mut self) -> (r: Result<(), ErrorKind>)
        ensures
            op_result(old(self)@, final(self)@, r, spec_stash_pop(old(self)@)),
    {
        if self.stash.len() > 0 && self.worktree_delta.is_none() {
            let d = match self.stash.pop() {
                Some(d) => d,
                None => {
                    return Err(ErrorKind::StashPopFailed);
                },
            };
            self.worktree_delta = Some(d);
            proof {
                assert(self@ =~= (RepoView {
                    worktree_delta: Some(old(self)@.stash.last()),
                    stash: old(self)@.stash.drop_last(),
                    ..old(self)@
                }));
            }
            Ok(())
        } else {
            Err(ErrorKind::StashPopFailed)
        }
    }

    /// Undo the newest commit of the current branch, the change set it
    /// captured returning to the index.
    pub fn reset_to_head_parent(&mut self) -> (r: Result<(), ErrorKind>)
        ensures
            op_result(old(self)@, final(self)@, r, spec_reset_to_parent(old(self)@)),
    {
        let name = match self.head {
            ModelHead::OnBranch { name } => name,
            ModelHead::Detached { .. } => {
                return Err(ErrorKind::RollbackFailed);
            },
        };
        let i = match self.find_branch_idx(name) {
            Some(i) => i,
            None => {
                return Err(ErrorKind::RollbackFailed);
            },
        };
        if self.index_delta.is_some() {
            return Err(ErrorKind::RollbackFailed);
        }
        let tip = self.branches[i].tip;
        if tip >= self.commits.len() {
            return Err(ErrorKind::RollbackFailed);
        }
        match self.commits[tip] {
            ModelCommit::Root { .. } => Err(ErrorKind::RollbackFailed),
            ModelCommit::Child { parent, delta, .. } => {
                self.branches.set(i, BranchRec { name, tip: parent });
                self.index_delta = Some(delta);
                proof {
                    lemma_set_tip_at_first(old(self).branches@, name, i as int, parent);
                    assert(self@ =~= (RepoView {
                        branches: seq_set_branch_tip(old(self)@.branches, name, parent),
                        index_delta: Some(delta),
                        ..old(self)@
                    }));
                }
                Ok(())
            },
        }
    }

    /// Delete a local branch pointer.
    pub fn delete_branch(&mut self, name: u64) -> (r: Result<(), ErrorKind>)
        ensures
            op_result(old(self)@, final(self)@, r, spec_delete_branch(old(self)@, name)),
    {
        let i = match self.find_branch_idx(name) {
            Some(i) => i,
            None => {
                return Err(ErrorKind::RollbackFailed);
            },
        };
        let on_it = match self.head {
            ModelHead::OnBranch { name: h } => h == name,
            ModelHead::Detached { .. } => false,
        };
        if on_it {
            return Err(ErrorKind::RollbackFailed);
        }
        self.branches.remove(i);
        proof {
            lemma_remove_at_first(old(self).branches@, name, i as int);
            assert(self@ =~= (RepoView {
                branches: seq_remove_branch(old(self)@.branches, name),
                ..old(self)@
            }));
        }
        Ok(())
    }

    /// Rebase `current` onto `onto`, replaying the one commit by which
    /// `current` is ahead of `upstream`; the replayed commit keeps its
    /// authorship and message and is committed with `sig`.  The session is
    /// in-memory: a failed rebase changes nothing.
    pub fn rebase_branch(
        &mut self,
        current: u64,
        upstream: u64,
        onto: u64,
        sig: u64,
        conflict: bool,
    ) -> (r: Result<(), ErrorKind>)
        ensures
            op_result(
                old(self)@,
                final(self)@,
                r,
                spec_rebase(old(self)@, current, upstream, onto, sig, conflict),
            ),
    {
        let cur_i = match self.find_branch_idx(current) {
            Some(i) => i,
            None => {
                return Err(ErrorKind::RebaseFailed);
            },
        };
        let up = match self.branch_tip(upstream) {
            Some(t) => t,
            None => {
                return Err(ErrorKind::RebaseFailed);
            },
        };
        let on = match self.branch_tip(onto) {
            Some(t) => t,
            None => {
                return Err(ErrorKind::RebaseFailed);
            },
        };
        let cur = self.branches[cur_i].tip;
        if conflict || cur >= self.commits.len() {
            return Err(ErrorKind::RebaseFailed);
        }
        match self.commits[cur] {
            ModelCommit::Root { .. } => Err(ErrorKind::RebaseFailed),
            ModelCommit::Child { parent, delta, author, committer: _, message } => {
                if parent != up {
                    return Err(ErrorKind::RebaseFailed);
                }
                let newid = self.commits.len();
                let c = ModelCommit::Child {
                    parent: on,
                    delta,
                    author,
                    committer: sig,
                    message,
                };
                self.commits.push(c);
                self.branches.set(cur_i, BranchRec { name: current, tip: newid });
                proof {
                    lemma_set_tip_at_first(old(self).branches@, current, cur_i as int, newid);
                    assert(self@ =~= (RepoView {
                        commits: old(self)@.commits.push(c),
                        branches: seq_set_branch_tip(old(self)@.branches, current, newid),
                        ..old(self)@
                    }));
                }
                Ok(())
            },
        }
    }

    /// One whole run of the workflow, exactly as `spec_run` describes it:
    /// the precondition checks, then branch creation, checkout, commit
    /// synthesis (with `sig` as author and committer and `msg` as the
    /// message), the conditional stash, the rebase attempt, and either the
    /// success tail or the rollback.  `rebase_conflict` says whether the
    /// rebase attempt hits a content conflict (an input, because the model
    /// abstracts file contents away).
    pub fn run(&mut self, target: u64, onto: u64, sig: u64, msg: u64, rebase_conflict: bool) -> (r:
        Result<(), ErrorKind>)
        ensures
            final(self)@ == spec_run(old(self)@, target, onto, sig, msg, rebase_conflict).0,
            r == spec_run(old(self)@, target, onto, sig, msg, rebase_conflict).1,
    {
        let mid = self.is_mid_operation();
        let staged = self.has_staged_changes();
        let t_ex = self.branch_exists(target);
        let o_ex = self.branch_exists(onto);
        match validate_preconditions(mid, staged, t_ex, o_ex) {
            Err(e) => {
                return Err(e);
            },
            Ok(_) => {},
        }
        let orig = match self.current_branch_name() {
            Some(name) => name,
            None => {
                return Err(ErrorKind::NotOnBranch);
            },
        };
        let orig_tip = match self.branch_tip(orig) {
            Some(t) => t,
            None => {
                return Err(ErrorKind::NotOnBranch);
            },
        };
        let unstaged = self.has_unstaged_changes();
        match self.create_branch(target, orig_tip) {
            Err(e) => {
                return Err(e);
            },
            Ok(_) => {},
        }
        match self.checkout_branch(target) {
            Err(e) => {
                return Err(e);
            },
            Ok(_) => {},
        }
        match self.commit_on_head(sig, msg) {
            Err(e) => {
                return Err(e);
            },
            Ok(_) => {},
        }
        if unstaged {
            match self.stash_push() {
                Err(e) => {
                    return Err(e);
                },
                Ok(_) => {},
            }
        }
        match self.rebase_branch(target, orig, onto, sig, rebase_conflict) {
            Ok(_) => {
                // success tail: back to the original branch, restore the
                // unstaged changes if they were set aside
                match self.checkout_branch(orig) {
                    Err(e) => {
                        return Err(e);
                    },
                    Ok(_) => {},
                }
                if unstaged {
                    match self.stash_pop() {
                        Err(e) => {
                            return Err(e);
                        },
                        Ok(_) => {},
                    }
                }
                Ok(())
            },
            Err(_) => {
                // rollback: undo the sidequest commit, restore the unstaged
                // changes, return to the original branch, drop the target
                // branch; any failure here is the distinct rollback kind
                match self.reset_to_head_parent() {
                    Err(_) => {
                        return Err(ErrorKind::RollbackFailed);
                    },
                    Ok(_) => {},
                }
                if unstaged {
                    match self.stash_pop() {
                        Err(_) => {
                            return Err(ErrorKind::RollbackFailed);
                        },
                        Ok(_) => {},
                    }
                }
                match self.checkout_branch(orig) {
                    Err(_) => {
                        return Err(ErrorKind::RollbackFailed);
                    },
                    Ok(_) => {},
                }
                match self.delete_branch(target) {
                    Err(_) => {
                        return Err(ErrorKind::RollbackFailed);
                    },
                    Ok(_) => {},
                }
                Err(ErrorKind::RebaseFailed)
            },
        }
    }
}

} // verus!
