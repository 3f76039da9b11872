use backer::{add_all_and_commit, pull, MergeOutcome, Repo};

fn write_file(dir: &std::path::Path, name: &str, bytes: &[u8]) {
    let mut file = tempfile::NamedTempFile::new_in(dir).unwrap();
    std::io::Write::write_all(&mut file, bytes).unwrap();
    file.persist(dir.join(name)).unwrap();
}

fn commit_in(dir: &std::path::Path, repo: &mut Repo, name: &str, bytes: &[u8], msg: &str) -> git2::Oid {
    write_file(dir, name, bytes);
    add_all_and_commit(repo, msg, "Tester", "tester@example.com").unwrap().id
}

/// A local repository tracking a plain-path "remote" repository, so that
/// fetch and merge run against real histories without any network.
fn setup_pair() -> (tempfile::TempDir, tempfile::TempDir, Repo, Repo) {
    let remote_dir = tempfile::TempDir::new().unwrap();
    let local_dir = tempfile::TempDir::new().unwrap();
    let remote = Repo::new(remote_dir.path().to_str().unwrap()).unwrap();
    let mut local = Repo::new(local_dir.path().to_str().unwrap()).unwrap();
    local.repo.remote("origin", remote_dir.path().to_str().unwrap()).unwrap();
    // a merge commit is authored with the repository's configured signature
    let mut config = local.repo.config().unwrap();
    config.set_str("user.name", "Tester").unwrap();
    config.set_str("user.email", "tester@example.com").unwrap();
    (remote_dir, local_dir, remote, local)
}

fn head_id(repo: &Repo) -> git2::Oid {
    repo.repo.head().unwrap().peel_to_commit().unwrap().id()
}

#[test]
fn pull_into_empty_repository_creates_branch() {
    let (remote_dir, _local_dir, mut remote, mut local) = setup_pair();
    let tip = commit_in(remote_dir.path(), &mut remote, "a.txt", b"one\n", "c1");

    // the branch reference does not exist yet: it is created, not failed on
    assert!(local.repo.find_reference("refs/heads/master").is_err());
    let outcome = pull(&mut local, "").unwrap();
    assert!(matches!(outcome, MergeOutcome::FastForwarded(_)));
    let branch = local.repo.find_reference("refs/heads/master").unwrap();
    assert_eq!(branch.target(), Some(tip));
    // the working tree was updated to match
    assert_eq!(head_id(&local), tip);
}

#[test]
fn pull_when_up_to_date_is_noop() {
    let (remote_dir, _local_dir, mut remote, mut local) = setup_pair();
    commit_in(remote_dir.path(), &mut remote, "a.txt", b"one\n", "c1");
    pull(&mut local, "").unwrap();
    let before = head_id(&local);
    let outcome = pull(&mut local, "").unwrap();
    assert!(matches!(outcome, MergeOutcome::NoOp));
    assert_eq!(head_id(&local), before);
}

#[test]
fn pull_when_strictly_behind_fast_forwards() {
    let (remote_dir, _local_dir, mut remote, mut local) = setup_pair();
    commit_in(remote_dir.path(), &mut remote, "a.txt", b"one\n", "c1");
    pull(&mut local, "").unwrap();
    let new_tip = commit_in(remote_dir.path(), &mut remote, "a.txt", b"two\n", "c2");

    let outcome = pull(&mut local, "").unwrap();
    match outcome {
        MergeOutcome::FastForwarded(id) => assert_eq!(id, new_tip),
        other => panic!("expected a fast-forward, got {:?}", other),
    }
    assert_eq!(head_id(&local), new_tip);
    // the fast-forwarded commit is the remote's, not a new merge commit
    let head = local.repo.head().unwrap().peel_to_commit().unwrap();
    assert_eq!(head.parent_count(), 1);
}

#[test]
fn pull_of_diverged_histories_creates_merge_commit() {
    let (remote_dir, local_dir, mut remote, mut local) = setup_pair();
    commit_in(remote_dir.path(), &mut remote, "base.txt", b"base\n", "c1");
    pull(&mut local, "").unwrap();
    let remote_tip = commit_in(remote_dir.path(), &mut remote, "remote.txt", b"r\n", "remote side");
    let local_tip = commit_in(local_dir.path(), &mut local, "local.txt", b"l\n", "local side");

    let outcome = pull(&mut local, "").unwrap();
    let merge_id = match outcome {
        MergeOutcome::Merged(id) => id,
        other => panic!("expected a merge commit, got {:?}", other),
    };
    let merge = local.repo.find_commit(merge_id).unwrap();
    assert_eq!(merge.parent_count(), 2);
    assert_eq!(merge.parent(0).unwrap().id(), local_tip);
    assert_eq!(merge.parent(1).unwrap().id(), remote_tip);
    assert_eq!(head_id(&local), merge_id);
    // both sides' files are in the merged tree
    let tree = merge.tree().unwrap();
    assert!(tree.get_name("remote.txt").is_some());
    assert!(tree.get_name("local.txt").is_some());
}

#[test]
fn pull_with_conflicting_edits_leaves_conflict_in_working_tree() {
    let (remote_dir, local_dir, mut remote, mut local) = setup_pair();
    commit_in(remote_dir.path(), &mut remote, "shared.txt", b"base\n", "c1");
    pull(&mut local, "").unwrap();
    commit_in(remote_dir.path(), &mut remote, "shared.txt", b"remote\n", "remote side");
    let local_tip = commit_in(local_dir.path(), &mut local, "shared.txt", b"local\n", "local side");

    let outcome = pull(&mut local, "").unwrap();
    assert!(matches!(outcome, MergeOutcome::ConflictsLeftInWorkingTree));
    // no merge commit was created: the local tip is unchanged
    assert_eq!(head_id(&local), local_tip);
    // the working tree holds the conflicted content, markers and all
    let blob_id = local.repo.blob_path(&local_dir.path().join("shared.txt")).unwrap();
    let blob = local.repo.find_blob(blob_id).unwrap();
    let content = blob.content();
    assert!(content.windows(7).any(|w| w == b"<<<<<<<"));
    assert!(content.windows(7).any(|w| w == b">>>>>>>"));
    let as_text = String::from_utf8_lossy(content);
    assert!(as_text.contains("local"));
    assert!(as_text.contains("remote"));
}

#[test]
fn pull_without_remote_fails_without_touching_history() {
    let dir = tempfile::TempDir::new().unwrap();
    let mut repo = Repo::new(dir.path().to_str().unwrap()).unwrap();
    assert!(pull(&mut repo, "").is_err());
}

#[test]
fn pull_from_unreachable_remote_fails() {
    let dir = tempfile::TempDir::new().unwrap();
    let mut repo = Repo::new(dir.path().to_str().unwrap()).unwrap();
    repo.repo.remote("origin", "/no/such/remote/path").unwrap();
    assert!(pull(&mut repo, "").is_err());
}
