use backer::{add_all_and_commit, create_initial_commit, init_repo, Repo};

fn write_file(dir: &std::path::Path, name: &str, bytes: &[u8]) {
    let mut file = tempfile::NamedTempFile::new_in(dir).unwrap();
    std::io::Write::write_all(&mut file, bytes).unwrap();
    file.persist(dir.join(name)).unwrap();
}

fn head_tree_blob(repo: &git2::Repository, name: &str) -> Vec<u8> {
    let head = repo.head().unwrap().peel_to_commit().unwrap();
    let tree = head.tree().unwrap();
    let entry = tree.get_name(name).unwrap();
    let object = entry.to_object(repo).unwrap();
    object.as_blob().unwrap().content().to_vec()
}

#[test]
fn commit_parents_follow_history() {
    let dir = tempfile::TempDir::new().unwrap();
    let path = dir.path().to_str().unwrap();
    let mut repo = Repo::new(path).unwrap();

    write_file(dir.path(), "a.txt", b"one\n");
    let rec1 = add_all_and_commit(&mut repo, "first", "Tester", "tester@example.com").unwrap();
    assert!(rec1.parent.is_none());

    write_file(dir.path(), "a.txt", b"two\n");
    let rec2 = add_all_and_commit(&mut repo, "second", "Tester", "tester@example.com").unwrap();
    assert_eq!(rec2.parent, Some(rec1.id));

    write_file(dir.path(), "b.txt", b"three\n");
    let rec3 = add_all_and_commit(&mut repo, "third", "Tester", "tester@example.com").unwrap();
    assert_eq!(rec3.parent, Some(rec2.id));

    // cross-check against the on-disk history
    let head = repo.repo.head().unwrap().peel_to_commit().unwrap();
    assert_eq!(head.id(), rec3.id);
    assert_eq!(head.parent_count(), 1);
    let second = head.parent(0).unwrap();
    assert_eq!(second.id(), rec2.id);
    assert_eq!(second.parent_count(), 1);
    let first = second.parent(0).unwrap();
    assert_eq!(first.id(), rec1.id);
    assert_eq!(first.parent_count(), 0);
}

#[test]
fn round_trip_staged_content() {
    let dir = tempfile::TempDir::new().unwrap();
    let path = dir.path().to_str().unwrap();
    let mut repo = Repo::new(path).unwrap();

    let text = b"alpha\nbeta\n".to_vec();
    let binary = vec![0u8, 1, 2, 250, 255, 0, 10, 13];
    write_file(dir.path(), "a.txt", &text);
    write_file(dir.path(), "b.bin", &binary);
    add_all_and_commit(&mut repo, "snapshot", "Tester", "tester@example.com").unwrap();

    assert_eq!(head_tree_blob(&repo.repo, "a.txt"), text);
    assert_eq!(head_tree_blob(&repo.repo, "b.bin"), binary);
}

#[test]
fn find_last_commit_on_empty_repository_fails() {
    let dir = tempfile::TempDir::new().unwrap();
    let mut repo = Repo::new(dir.path().to_str().unwrap()).unwrap();
    assert!(repo.find_last_commit().is_err());
    write_file(dir.path(), "a.txt", b"x\n");
    let rec = add_all_and_commit(&mut repo, "first", "Tester", "tester@example.com").unwrap();
    assert_eq!(repo.find_last_commit().unwrap().id(), rec.id);
}

#[test]
fn initial_commit_has_no_parents() {
    let dir = tempfile::TempDir::new().unwrap();
    let mut repo = Repo::new(dir.path().to_str().unwrap()).unwrap();
    let mut config = repo.repo.config().unwrap();
    config.set_str("user.name", "Tester").unwrap();
    config.set_str("user.email", "tester@example.com").unwrap();
    create_initial_commit(&mut repo).unwrap();
    let head = repo.repo.head().unwrap().peel_to_commit().unwrap();
    assert_eq!(head.parent_count(), 0);
    assert_eq!(head.message(), Some("Initial commit"));
}

#[test]
fn initial_commit_refused_on_non_empty_history() {
    let dir = tempfile::TempDir::new().unwrap();
    let mut repo = Repo::new(dir.path().to_str().unwrap()).unwrap();
    let mut config = repo.repo.config().unwrap();
    config.set_str("user.name", "Tester").unwrap();
    config.set_str("user.email", "tester@example.com").unwrap();
    write_file(dir.path(), "a.txt", b"one\n");
    let rec = add_all_and_commit(&mut repo, "first", "Tester", "tester@example.com").unwrap();
    assert!(create_initial_commit(&mut repo).is_err());
    // the existing history is untouched
    assert_eq!(repo.repo.head().unwrap().peel_to_commit().unwrap().id(), rec.id);
}

#[test]
fn init_repo_registers_remote() {
    let dir = tempfile::TempDir::new().unwrap();
    let path = dir.path().to_str().unwrap();
    let repo = init_repo(path.to_string(), Some("git@example.com:backup.git")).unwrap();
    let remote = repo.repo.find_remote("origin").unwrap();
    assert_eq!(remote.url(), Some("git@example.com:backup.git"));
    // running it again on the same path leaves the existing remote standing
    let again = init_repo(path.to_string(), Some("git@example.com:other.git")).unwrap();
    let kept = again.repo.find_remote("origin").unwrap();
    assert_eq!(kept.url(), Some("git@example.com:backup.git"));
}

#[test]
fn init_repo_without_remote_has_none() {
    let dir = tempfile::TempDir::new().unwrap();
    let repo = init_repo(dir.path().to_str().unwrap().to_string(), None).unwrap();
    assert!(repo.repo.find_remote("origin").is_err());
}

#[test]
fn invalid_signature_reports_commit_write_failed() {
    let dir = tempfile::TempDir::new().unwrap();
    let mut repo = Repo::new(dir.path().to_str().unwrap()).unwrap();
    write_file(dir.path(), "a.txt", b"one\n");
    let result = add_all_and_commit(&mut repo, "msg", "Bad<Name>", "tester@example.com");
    assert!(matches!(result, Err(backer::CommitError::CommitWriteFailed(_))));
    // nothing was committed
    assert!(repo.find_last_commit().is_err());
}

#[test]
fn reopen_existing_repository() {
    let dir = tempfile::TempDir::new().unwrap();
    let path = dir.path().to_str().unwrap();
    assert!(Repo::open(path).is_err());
    Repo::new(path).unwrap();
    let reopened = Repo::open(path).unwrap();
    assert_eq!(reopened.repo_path, path);
}
