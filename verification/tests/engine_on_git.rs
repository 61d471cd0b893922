//! Integration tests of the engine against real repositories, built in
//! temporary directories entirely through the backend (no direct file I/O
//! in the tests themselves).

use git_sidequest::{
    branch_exists, get_current_branch_name, has_staged_changes, has_unstaged_changes,
    is_mid_operation, validate_branch_name, App, ErrorKind, WorkflowError,
};

fn test_signature() -> git2::Signature<'static> {
    git2::Signature::now("Tester", "tester@example.com").unwrap()
}

/// Stage `contents` for `path` straight from memory.
fn stage(repo: &git2::Repository, path: &str, contents: &[u8]) {
    let entry = git2::IndexEntry {
        ctime: git2::IndexTime::new(0, 0),
        mtime: git2::IndexTime::new(0, 0),
        dev: 0,
        ino: 0,
        mode: 0o100644,
        uid: 0,
        gid: 0,
        file_size: 0,
        id: git2::Oid::from_str("0000000000000000000000000000000000000000").unwrap(),
        flags: 0,
        flags_extended: 0,
        path: path.as_bytes().to_vec(),
    };
    let mut index = repo.index().unwrap();
    index.add_frombuffer(&entry, contents).unwrap();
    index.write().unwrap();
}

/// Bring the working tree in line with the index.
fn materialize_index(repo: &git2::Repository) {
    let mut co = git2::build::CheckoutBuilder::new();
    co.force();
    repo.checkout_index(None, Some(&mut co)).unwrap();
}

/// Bring one path of the working tree in line with the index.
fn materialize_path(repo: &git2::Repository, path: &str) {
    let mut co = git2::build::CheckoutBuilder::new();
    co.force();
    co.path(path);
    repo.checkout_index(None, Some(&mut co)).unwrap();
}

/// Commit the index on top of HEAD (or as the root commit).
fn commit_index(repo: &git2::Repository, message: &str) -> git2::Oid {
    let sig = test_signature();
    let tree_id = repo.index().unwrap().write_tree().unwrap();
    let tree = repo.find_tree(tree_id).unwrap();
    match repo.head() {
        Ok(head) => {
            let parent = head.peel_to_commit().unwrap();
            repo.commit(Some("HEAD"), &sig, &sig, message, &tree, &[&parent])
                .unwrap()
        }
        Err(_) => repo
            .commit(Some("HEAD"), &sig, &sig, message, &tree, &[])
            .unwrap(),
    }
}

/// A fresh repository with one file committed and checked out.
fn init_repo() -> (tempfile::TempDir, git2::Repository) {
    let td = tempfile::tempdir().unwrap();
    let repo = git2::Repository::init(td.path()).unwrap();
    stage(&repo, "notes.txt", b"base\n");
    commit_index(&repo, "initial");
    materialize_index(&repo);
    (td, repo)
}

#[test]
fn staged_only_run_succeeds() {
    let (_td, repo) = init_repo();
    let original = get_current_branch_name(&repo).unwrap();
    repo.branch(
        "develop",
        &repo.head().unwrap().peel_to_commit().unwrap(),
        false,
    )
    .unwrap();
    // one staged edit, the working tree in line with the index
    stage(&repo, "notes.txt", b"sidequest\n");
    materialize_index(&repo);
    assert!(has_staged_changes(&repo).unwrap());
    assert!(!has_unstaged_changes(&repo).unwrap());

    let sig = test_signature();
    let mut app = App::new(repo);
    app.run("feature-x", "develop", Some(&sig), "sidequest: notes")
        .unwrap();

    // the feature branch exists, its tip sits on top of develop's tip and
    // carries the staged edit; the original branch is checked out again
    assert!(branch_exists(&app.repo, "feature-x"));
    assert_eq!(get_current_branch_name(&app.repo).unwrap(), original);
    let feature_tip = app
        .repo
        .find_branch("feature-x", git2::BranchType::Local)
        .unwrap()
        .into_reference()
        .peel_to_commit()
        .unwrap();
    assert_eq!(feature_tip.message().unwrap(), "sidequest: notes");
    let develop_tip = app
        .repo
        .find_branch("develop", git2::BranchType::Local)
        .unwrap()
        .into_reference()
        .peel_to_commit()
        .unwrap();
    assert_eq!(feature_tip.parent(0).unwrap().id(), develop_tip.id());
    assert!(!has_staged_changes(&app.repo).unwrap());
    assert!(!is_mid_operation(&app.repo));
}

#[test]
fn unstaged_changes_survive_a_successful_run() {
    let (_td, repo) = init_repo();
    // a second committed file to carry the unstaged edit
    stage(&repo, "extra.txt", b"extra base\n");
    commit_index(&repo, "add extra");
    materialize_index(&repo);
    repo.branch(
        "develop",
        &repo.head().unwrap().peel_to_commit().unwrap(),
        false,
    )
    .unwrap();
    // the staged edit, the working tree in line with it
    stage(&repo, "notes.txt", b"sidequest\n");
    materialize_path(&repo, "notes.txt");
    // an unstaged edit: bring the working tree of the second file to a
    // state the index does not have
    stage(&repo, "extra.txt", b"work in progress\n");
    materialize_path(&repo, "extra.txt");
    stage(&repo, "extra.txt", b"extra base\n");
    assert!(has_staged_changes(&repo).unwrap());
    assert!(has_unstaged_changes(&repo).unwrap());

    let sig = test_signature();
    let mut app = App::new(repo);
    app.run("feature-y", "develop", Some(&sig), "sidequest: notes")
        .unwrap();

    // the unstaged difference is back and no stash entry remains
    assert!(has_unstaged_changes(&app.repo).unwrap());
    assert!(!is_mid_operation(&app.repo));
    assert!(branch_exists(&app.repo, "feature-y"));
    let mut stash_entries = 0;
    app.repo
        .stash_foreach(|_, _, _| {
            stash_entries += 1;
            true
        })
        .unwrap();
    assert_eq!(stash_entries, 0);
}

#[test]
fn run_without_staged_changes_is_rejected() {
    let (_td, repo) = init_repo();
    repo.branch(
        "develop",
        &repo.head().unwrap().peel_to_commit().unwrap(),
        false,
    )
    .unwrap();
    let sig = test_signature();
    let mut app = App::new(repo);
    let err = app
        .run("feature-x", "develop", Some(&sig), "message")
        .unwrap_err();
    assert_eq!(err.kind(), ErrorKind::NoStagedChanges);
    assert!(!branch_exists(&app.repo, "feature-x"));
}

#[test]
fn run_onto_existing_target_is_rejected() {
    let (_td, repo) = init_repo();
    {
        let head_commit = repo.head().unwrap().peel_to_commit().unwrap();
        repo.branch("develop", &head_commit, false).unwrap();
        repo.branch("taken", &head_commit, false).unwrap();
    }
    stage(&repo, "notes.txt", b"sidequest\n");
    materialize_index(&repo);
    let sig = test_signature();
    let mut app = App::new(repo);
    let err = app.run("taken", "develop", Some(&sig), "message").unwrap_err();
    assert_eq!(err.kind(), ErrorKind::TargetBranchExists);
}

#[test]
fn run_onto_missing_branch_is_rejected() {
    let (_td, repo) = init_repo();
    stage(&repo, "notes.txt", b"sidequest\n");
    materialize_index(&repo);
    let sig = test_signature();
    let mut app = App::new(repo);
    let err = app
        .run("feature-x", "no-such-branch", Some(&sig), "message")
        .unwrap_err();
    assert_eq!(err.kind(), ErrorKind::OntoBranchMissing);
    assert!(!branch_exists(&app.repo, "feature-x"));
}

#[test]
fn conflicting_rebase_is_rolled_back() {
    let (_td, repo) = init_repo();
    let original = get_current_branch_name(&repo).unwrap();
    // develop diverges with a conflicting edit to the same file
    {
        let head_commit = repo.head().unwrap().peel_to_commit().unwrap();
        repo.branch("develop", &head_commit, false).unwrap();
    }
    repo.set_head("refs/heads/develop").unwrap();
    stage(&repo, "notes.txt", b"develop version\n");
    commit_index(&repo, "develop change");
    materialize_index(&repo);
    let refname = format!("refs/heads/{}", original);
    repo.set_head(&refname).unwrap();
    let mut co = git2::build::CheckoutBuilder::new();
    co.force();
    repo.checkout_head(Some(&mut co)).unwrap();
    // a conflicting staged edit on the original branch
    stage(&repo, "notes.txt", b"sidequest version\n");
    materialize_index(&repo);
    assert!(has_staged_changes(&repo).unwrap());

    let sig = test_signature();
    let mut app = App::new(repo);
    let err = app
        .run("feature-x", "develop", Some(&sig), "conflicting sidequest")
        .unwrap_err();
    // the designed-for failure: the rebase conflicts and the run is rolled
    // back — the target branch is gone, the original branch is checked out,
    // and no operation is left in progress
    assert_eq!(err.kind(), ErrorKind::RebaseFailed);
    assert!(matches!(err, WorkflowError::RebaseFailed(_)));
    assert!(!branch_exists(&app.repo, "feature-x"));
    assert_eq!(get_current_branch_name(&app.repo).unwrap(), original);
    assert!(!is_mid_operation(&app.repo));
    // rollback exactness: the undone commit's changes are back in the
    // index, staged as they were before the run, and nothing is left over
    // in the working tree
    assert!(has_staged_changes(&app.repo).unwrap());
    assert!(!has_unstaged_changes(&app.repo).unwrap());
}

#[test]
fn configured_identity_is_used_when_none_is_given() {
    let (_td, repo) = init_repo();
    repo.config()
        .unwrap()
        .set_str("user.name", "Config User")
        .unwrap();
    repo.config()
        .unwrap()
        .set_str("user.email", "config@example.com")
        .unwrap();
    repo.branch(
        "develop",
        &repo.head().unwrap().peel_to_commit().unwrap(),
        false,
    )
    .unwrap();
    stage(&repo, "notes.txt", b"sidequest\n");
    materialize_index(&repo);

    let mut app = App::new(repo);
    app.run("feature-z", "develop", None, "sidequest: notes")
        .unwrap();
    let tip = app
        .repo
        .find_branch("feature-z", git2::BranchType::Local)
        .unwrap()
        .into_reference()
        .peel_to_commit()
        .unwrap();
    assert_eq!(tip.committer().name().unwrap(), "Config User");
}

#[test]
fn detached_head_yields_no_branch_name() {
    let (_td, repo) = init_repo();
    {
        let head_commit = repo.head().unwrap().peel_to_commit().unwrap();
        repo.branch("develop", &head_commit, false).unwrap();
    }
    let oid = repo.head().unwrap().peel_to_commit().unwrap().id();
    repo.set_head_detached(oid).unwrap();
    assert_eq!(get_current_branch_name(&repo), None);
    // a run on a detached HEAD stops with the dedicated failure, after the
    // preconditions but before any mutation
    stage(&repo, "notes.txt", b"sidequest\n");
    materialize_index(&repo);
    let sig = test_signature();
    let mut app = App::new(repo);
    let err = app
        .run("feature-x", "develop", Some(&sig), "message")
        .unwrap_err();
    assert_eq!(err.kind(), ErrorKind::NotOnBranch);
    assert!(!branch_exists(&app.repo, "feature-x"));
}

#[test]
fn branch_names_are_validated() {
    assert_eq!(
        validate_branch_name("feature-x").unwrap(),
        "feature-x".to_string()
    );
    assert!(validate_branch_name("has space").is_err());
    assert!(validate_branch_name("").is_err());
    assert!(validate_branch_name("ends.lock").is_err());
}
