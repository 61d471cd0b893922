//! Trusted boundary to the git backend.
//!
//! Every type of the backend the engine touches is declared opaque here,
//! and every backend call goes through exactly one wrapper below.  A
//! wrapper's contract states only what the backend's source shows; most
//! backend results depend on on-disk repository state, so most wrappers
//! promise nothing and the engine's logic is verified in the functions that
//! take their results as arguments.

use vstd::prelude::*;

verus! {

#[verifier::external_type_specification]
#[verifier::external_body]
pub struct ExRepository(git2::Repository);

#[verifier::external_type_specification]
#[verifier::external_body]
pub struct ExGitError(git2::Error);

#[verifier::external_type_specification]
#[verifier::external_body]
pub struct ExOid(git2::Oid);

#[verifier::external_type_specification]
#[verifier::external_body]
pub struct ExSignature<'a>(git2::Signature<'a>);

#[verifier::external_type_specification]
#[verifier::external_body]
pub struct ExBranch<'repo>(git2::Branch<'repo>);

#[verifier::external_type_specification]
#[verifier::external_body]
pub struct ExReference<'repo>(git2::Reference<'repo>);

#[verifier::external_type_specification]
#[verifier::external_body]
pub struct ExCommit<'repo>(git2::Commit<'repo>);

#[verifier::external_type_specification]
#[verifier::external_body]
pub struct ExObject<'repo>(git2::Object<'repo>);

#[verifier::external_type_specification]
#[verifier::external_body]
pub struct ExTree<'repo>(git2::Tree<'repo>);

#[verifier::external_type_specification]
#[verifier::external_body]
pub struct ExIndex(git2::Index);

#[verifier::external_type_specification]
#[verifier::external_body]
pub struct ExStatuses<'repo>(git2::Statuses<'repo>);

#[verifier::external_type_specification]
#[verifier::external_body]
pub struct ExAnnotatedCommit<'repo>(git2::AnnotatedCommit<'repo>);

#[verifier::external_type_specification]
#[verifier::external_body]
pub struct ExRebase<'repo>(git2::Rebase<'repo>);

#[verifier::external_type_specification]
#[verifier::external_body]
pub struct ExRebaseOperation<'rebase>(git2::RebaseOperation<'rebase>);

/// Names what git2::Branch::name_is_valid decides: whether a proposed
/// branch name satisfies the backend's syntax rules, a function of the name
/// alone.
pub uninterp spec fn branch_name_ok(name: Seq<char>) -> bool;

/// The name holds no NUL character (the backend takes names as
/// NUL-terminated strings, so a name with an interior NUL cannot even be
/// handed to it).
pub open spec fn nul_free(name: Seq<char>) -> bool {
    forall|i: int| 0 <= i < name.len() ==> name[i] != '\0'
}

/// Names the raw status bits of the entries of a status list, in list
/// order.
pub uninterp spec fn statuses_bits(s: git2::Statuses) -> Seq<u32>;

/// Relies on git2::Repository::discover: opens the repository that encloses
/// the current directory.
#[verifier::external_body]
pub fn open_repository() -> (r: Result<git2::Repository, git2::Error>) {
    git2::Repository::discover(".")
}

/// The repository's operation state, one variant per backend state.
#[derive(Clone, Copy, Debug, PartialEq, Eq, Structural)]
pub enum RepoState {
    Clean,
    Merge,
    Revert,
    RevertSequence,
    CherryPick,
    CherryPickSequence,
    Bisect,
    Rebase,
    RebaseInteractive,
    RebaseMerge,
    ApplyMailbox,
    ApplyMailboxOrRebase,
}

/// Relies on git2::Repository::state: which operation (merge, rebase,
/// cherry-pick, ...) is unfinished, `Clean` when none is.
#[verifier::external_body]
pub(crate) fn repo_state(repo: &git2::Repository) -> (r: RepoState) {
    match repo.state() {
        git2::RepositoryState::Clean => RepoState::Clean,
        git2::RepositoryState::Merge => RepoState::Merge,
        git2::RepositoryState::Revert => RepoState::Revert,
        git2::RepositoryState::RevertSequence => RepoState::RevertSequence,
        git2::RepositoryState::CherryPick => RepoState::CherryPick,
        git2::RepositoryState::CherryPickSequence => RepoState::CherryPickSequence,
        git2::RepositoryState::Bisect => RepoState::Bisect,
        git2::RepositoryState::Rebase => RepoState::Rebase,
        git2::RepositoryState::RebaseInteractive => RepoState::RebaseInteractive,
        git2::RepositoryState::RebaseMerge => RepoState::RebaseMerge,
        git2::RepositoryState::ApplyMailbox => RepoState::ApplyMailbox,
        git2::RepositoryState::ApplyMailboxOrRebase => RepoState::ApplyMailboxOrRebase,
    }
}

/// Relies on git2::Repository::signature: the author/committer identity
/// from the repository's configuration.
#[verifier::external_body]
pub fn default_signature(repo: &git2::Repository) -> (r: Result<
    git2::Signature<'static>,
    git2::Error,
>) {
    repo.signature()
}

/// Relies on git2::Branch::name_is_valid: the backend's verdict on the
/// name's syntax, a function of the name alone.  It errs only when the
/// verdict cannot be computed, which for this call means an interior NUL in
/// the name (the C string cannot be built).
#[verifier::external_body]
pub(crate) fn branch_name_is_valid(name: &str) -> (r: Result<bool, git2::Error>)
    ensures
        r matches Ok(b) ==> b == branch_name_ok(name@),
        nul_free(name@) ==> r is Ok,
{
    git2::Branch::name_is_valid(name)
}

/// Relies on git2::Repository::find_branch: looks a branch up by name in
/// the local or the remote-tracking namespace; `Err` when none exists.
#[verifier::external_body]
pub(crate) fn find_branch<'repo>(repo: &'repo git2::Repository, name: &str, remote: bool) -> (r:
    Result<git2::Branch<'repo>, git2::Error>) {
    let kind = if remote {
        git2::BranchType::Remote
    } else {
        git2::BranchType::Local
    };
    repo.find_branch(name, kind)
}

/// Relies on git2::Branch::delete: removes the branch pointer.
#[verifier::external_body]
pub(crate) fn branch_delete(branch: &mut git2::Branch<'_>) -> (r: Result<(), git2::Error>) {
    branch.delete()
}

/// Relies on git2::Branch::into_reference: the branch as a reference.
#[verifier::external_body]
pub(crate) fn branch_into_reference<'repo>(branch: git2::Branch<'repo>) -> (r: git2::Reference<
    'repo,
>) {
    branch.into_reference()
}

/// Relies on git2::Repository::statuses with default options: the status
/// list of index and working tree.
#[verifier::external_body]
pub(crate) fn repo_statuses<'repo>(repo: &'repo git2::Repository) -> (r: Result<
    git2::Statuses<'repo>,
    git2::Error,
>) {
    repo.statuses(None)
}

/// Relies on git2::Statuses::len: how many entries the list holds.
#[verifier::external_body]
pub(crate) fn statuses_len(s: &git2::Statuses<'_>) -> (n: usize)
    ensures
        n == statuses_bits(*s).len(),
{
    s.len()
}

/// Relies on git2::Statuses::get and git2::StatusEntry::status: the raw
/// status bits of the entry at this position, nothing past the end.
#[verifier::external_body]
pub(crate) fn status_bits_at(s: &git2::Statuses<'_>, i: usize) -> (r: Option<u32>)
    ensures
        r == if i < statuses_bits(*s).len() {
            Some(statuses_bits(*s)[i as int])
        } else {
            None::<u32>
        },
{
    s.get(i).map(|e| e.status().bits())
}

/// Relies on git2::Repository::head: the reference HEAD points to.
#[verifier::external_body]
pub(crate) fn repo_head<'repo>(repo: &'repo git2::Repository) -> (r: Result<
    git2::Reference<'repo>,
    git2::Error,
>) {
    repo.head()
}

/// Relies on git2::Reference::is_branch: the reference is a local branch.
#[verifier::external_body]
pub(crate) fn reference_is_branch(r: &git2::Reference<'_>) -> (b: bool) {
    r.is_branch()
}

/// Relies on git2::Reference::shorthand: the short name of the reference.
#[verifier::external_body]
pub(crate) fn reference_shorthand(r: &git2::Reference<'_>) -> (s: Result<String, git2::Error>) {
    r.shorthand().map(|n| n.to_owned())
}

/// Relies on git2::Repository::find_reference: a reference looked up by
/// its full name.
#[verifier::external_body]
pub(crate) fn find_reference<'repo>(repo: &'repo git2::Repository, name: &str) -> (r: Result<
    git2::Reference<'repo>,
    git2::Error,
>) {
    repo.find_reference(name)
}

/// Relies on git2::Reference::peel_to_commit: the commit the reference
/// resolves to.
#[verifier::external_body]
pub(crate) fn peel_to_commit<'repo>(r: &git2::Reference<'repo>) -> (c: Result<
    git2::Commit<'repo>,
    git2::Error,
>) {
    r.peel_to_commit()
}

/// Relies on git2::Repository::branch: creates a branch at the commit;
/// without `force` it fails when the name is already taken.
#[verifier::external_body]
pub(crate) fn create_branch_at<'repo>(
    repo: &'repo git2::Repository,
    name: &str,
    target: &git2::Commit<'repo>,
    force: bool,
) -> (r: Result<git2::Branch<'repo>, git2::Error>) {
    repo.branch(name, target, force)
}

/// Relies on git2::Repository::revparse_ext: the object a revision spec
/// resolves to.
#[verifier::external_body]
pub(crate) fn revparse_object<'repo>(repo: &'repo git2::Repository, spec: &str) -> (r: Result<
    git2::Object<'repo>,
    git2::Error,
>) {
    repo.revparse_ext(spec).map(|(obj, _)| obj)
}

/// Relies on git2::Repository::checkout_tree with default options: brings
/// the working tree to the given object's tree; fails when conflicting
/// uncommitted changes block the update.
#[verifier::external_body]
pub(crate) fn checkout_tree(repo: &git2::Repository, treeish: &git2::Object<'_>) -> (r: Result<
    (),
    git2::Error,
>) {
    repo.checkout_tree(treeish, None)
}

/// Relies on git2::Repository::set_head: repoints HEAD at the given
/// reference name.
#[verifier::external_body]
pub(crate) fn set_head(repo: &git2::Repository, refname: &str) -> (r: Result<(), git2::Error>) {
    repo.set_head(refname)
}

/// Relies on git2::Repository::index: the repository's index.
#[verifier::external_body]
pub(crate) fn repo_index(repo: &git2::Repository) -> (r: Result<git2::Index, git2::Error>) {
    repo.index()
}

/// Relies on git2::Index::write_tree: writes the index out as a tree.
#[verifier::external_body]
pub(crate) fn index_write_tree(index: &mut git2::Index) -> (r: Result<git2::Oid, git2::Error>) {
    index.write_tree()
}

/// Relies on git2::Repository::find_tree: the tree of the given id.
#[verifier::external_body]
pub(crate) fn find_tree<'repo>(repo: &'repo git2::Repository, oid: git2::Oid) -> (r: Result<
    git2::Tree<'repo>,
    git2::Error,
>) {
    repo.find_tree(oid)
}

/// Relies on git2::Commit::parent: the parent at the given position.
#[verifier::external_body]
pub(crate) fn commit_parent<'repo>(c: &git2::Commit<'repo>, i: usize) -> (r: Result<
    git2::Commit<'repo>,
    git2::Error,
>) {
    c.parent(i)
}

/// Relies on git2::Repository::commit: creates a commit from the tree with
/// the one given parent and the same identity as author and committer, and
/// advances the given reference to it.
#[verifier::external_body]
pub(crate) fn commit_with_parent(
    repo: &git2::Repository,
    update_ref: &str,
    signature: &git2::Signature<'_>,
    msg: &str,
    tree: &git2::Tree<'_>,
    parent: &git2::Commit<'_>,
) -> (r: Result<git2::Oid, git2::Error>) {
    repo.commit(Some(update_ref), signature, signature, msg, tree, &[parent])
}

/// Relies on git2::Repository::reset with `Soft`: moves the current branch
/// and HEAD to the commit, leaving index and working tree alone — so
/// undoing a commit this way returns what it captured to the index.
#[verifier::external_body]
pub(crate) fn reset_soft(repo: &git2::Repository, commit: &git2::Commit<'_>) -> (r: Result<
    (),
    git2::Error,
>) {
    repo.reset(commit.as_object(), git2::ResetType::Soft, None)
}

/// Relies on git2::Repository::stash_save: pushes a stash entry with the
/// given identity; with `keep_index` the index is left in place and
/// untracked files are included, so only the unstaged changes are set
/// aside.  Fails when there is nothing eligible to stash.
#[verifier::external_body]
pub(crate) fn stash_save(
    repo: &mut git2::Repository,
    signature: &git2::Signature<'_>,
    message: &str,
    keep_index: bool,
) -> (r: Result<git2::Oid, git2::Error>) {
    let flags = if keep_index {
        git2::StashFlags::KEEP_INDEX | git2::StashFlags::INCLUDE_UNTRACKED
    } else {
        git2::StashFlags::DEFAULT
    };
    repo.stash_save(signature, message, Some(flags))
}

/// Relies on git2::Repository::stash_apply with default options: applies
/// the stash entry at the given position; fails on conflicts.
#[verifier::external_body]
pub(crate) fn stash_apply(repo: &mut git2::Repository, index: usize) -> (r: Result<
    (),
    git2::Error,
>) {
    repo.stash_apply(index, None)
}

/// Relies on git2::Repository::stash_drop: removes the stash entry at the
/// given position.
#[verifier::external_body]
pub(crate) fn stash_drop(repo: &mut git2::Repository, index: usize) -> (r: Result<
    (),
    git2::Error,
>) {
    repo.stash_drop(index)
}

/// Relies on git2::Repository::reference_to_annotated_commit: the commit
/// of the reference, annotated to seed a rebase session.
#[verifier::external_body]
pub(crate) fn annotated_commit<'repo>(
    repo: &'repo git2::Repository,
    r: &git2::Reference<'repo>,
) -> (a: Result<git2::AnnotatedCommit<'repo>, git2::Error>) {
    repo.reference_to_annotated_commit(r)
}

/// Relies on git2::Repository::rebase, opened in-memory: a session
/// replaying `branch` since `upstream` onto `onto`.  In-memory, so a failed
/// session leaves no on-disk rebase state behind and persists nothing.
#[verifier::external_body]
pub(crate) fn rebase_init<'repo>(
    repo: &'repo git2::Repository,
    branch: &git2::AnnotatedCommit<'repo>,
    upstream: &git2::AnnotatedCommit<'repo>,
    onto: &git2::AnnotatedCommit<'repo>,
) -> (r: Result<git2::Rebase<'repo>, git2::Error>) {
    let mut opts = git2::RebaseOptions::new();
    opts.inmemory(true);
    repo.rebase(Some(branch), Some(upstream), Some(onto), Some(&mut opts))
}

/// The kinds of operation a rebase session replays.
#[derive(Clone, Copy, Debug, PartialEq, Eq, Structural)]
pub enum RebaseOpKind {
    Pick,
    Reword,
    Edit,
    Squash,
    Fixup,
    Exec,
    Unknown,
}

/// Relies on git2::Rebase::next and git2::RebaseOperation::kind: the next
/// operation of the session, `Ok(None)` once it is exhausted.
#[verifier::external_body]
pub(crate) fn rebase_next(rebase: &mut git2::Rebase<'_>) -> (r: Result<
    Option<RebaseOpKind>,
    git2::Error,
>) {
    match rebase.next() {
        None => Ok(None),
        Some(Err(e)) => Err(e),
        Some(Ok(op)) => Ok(Some(match op.kind() {
            Some(git2::RebaseOperationType::Pick) => RebaseOpKind::Pick,
            Some(git2::RebaseOperationType::Reword) => RebaseOpKind::Reword,
            Some(git2::RebaseOperationType::Edit) => RebaseOpKind::Edit,
            Some(git2::RebaseOperationType::Squash) => RebaseOpKind::Squash,
            Some(git2::RebaseOperationType::Fixup) => RebaseOpKind::Fixup,
            Some(git2::RebaseOperationType::Exec) => RebaseOpKind::Exec,
            None => RebaseOpKind::Unknown,
        })),
    }
}

/// Relies on git2::Rebase::len: how many operations the session holds.
#[verifier::external_body]
pub(crate) fn rebase_len(rebase: &git2::Rebase<'_>) -> (n: usize) {
    rebase.len()
}

/// Relies on git2::Rebase::commit: commits the current patch, the given
/// identity as committer and the original authorship kept.
#[verifier::external_body]
pub(crate) fn rebase_commit(rebase: &mut git2::Rebase<'_>, signature: &git2::Signature<'_>) -> (r:
    Result<git2::Oid, git2::Error>) {
    rebase.commit(None, signature, None)
}

/// Relies on git2::Rebase::finish: finishes the session, rewriting the
/// rebased branch to the final replayed commit.
#[verifier::external_body]
pub(crate) fn rebase_finish(rebase: &mut git2::Rebase<'_>, signature: &git2::Signature<'_>) -> (r:
    Result<(), git2::Error>) {
    rebase.finish(Some(signature))
}

} // verus!
