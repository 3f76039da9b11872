//! Trusted boundary to the git2 repository store.
//!
//! Every item in this module is believed, not proved: each wrapper's body
//! makes exactly the calls its doc comment names, and the verified engines
//! build on these contracts alone.
//!
//! The handle's `tip` field is this boundary's model of the tracked branch:
//! a wrapper that moves the branch writes the new tip into the field in the
//! same body, so each `ensures` below only describes what its own body does
//! to runtime values — nothing here constrains a value it did not produce.

use vstd::prelude::*;

use crate::repo::Repo;

verus! {

#[verifier::external_type_specification]
#[verifier::external_body]
pub struct ExRepository(git2::Repository);

#[verifier::external_type_specification]
#[verifier::external_body]
pub struct ExGitError(git2::Error);

#[verifier::external_type_specification]
#[verifier::external_body]
pub struct ExOid(git2::Oid);

#[verifier::external_type_specification]
#[verifier::external_body]
pub struct ExIndex(git2::Index);

#[verifier::external_type_specification]
#[verifier::external_body]
pub struct ExCommit<'a>(git2::Commit<'a>);

#[verifier::external_type_specification]
#[verifier::external_body]
pub struct ExTree<'a>(git2::Tree<'a>);

#[verifier::external_type_specification]
#[verifier::external_body]
pub struct ExSignature<'a>(git2::Signature<'a>);

#[verifier::external_type_specification]
#[verifier::external_body]
pub struct ExRemote<'a>(git2::Remote<'a>);

#[verifier::external_type_specification]
#[verifier::external_body]
pub struct ExReference<'a>(git2::Reference<'a>);

#[verifier::external_type_specification]
#[verifier::external_body]
pub struct ExAnnotatedCommit<'a>(git2::AnnotatedCommit<'a>);

/// Relies on git2::Repository::init: opens the repository at `path`,
/// creating it when none is there.
#[verifier::external_body]
pub(crate) fn repository_init(path: &str) -> (r: Result<git2::Repository, git2::Error>) {
    git2::Repository::init(std::path::Path::new(path))
}

/// Relies on git2::Repository::open: opens the repository at `path`,
/// failing when none is there.
#[verifier::external_body]
pub(crate) fn repository_open(path: &str) -> (r: Result<git2::Repository, git2::Error>) {
    git2::Repository::open(std::path::Path::new(path))
}

/// Relies on git2::Repository::remote: registers a named remote with the
/// given URL, failing when one of that name already exists.
#[verifier::external_body]
pub(crate) fn remote_add<'r>(repo: &'r git2::Repository, name: &str, url: &str) -> (r: Result<
    git2::Remote<'r>,
    git2::Error,
>) {
    repo.remote(name, url)
}

/// Relies on git2::Repository::index: hands out the repository's staging index.
#[verifier::external_body]
pub(crate) fn repo_index(repo: &git2::Repository) -> (r: Result<git2::Index, git2::Error>) {
    repo.index()
}

/// Relies on git2::Index::add_all: stages every path the pathspec matches,
/// deletions included.
#[verifier::external_body]
pub(crate) fn index_add_all(index: &mut git2::Index, pathspec: &str) -> (r: Result<
    (),
    git2::Error,
>) {
    index.add_all([pathspec].iter(), git2::IndexAddOption::DEFAULT, None)
}

/// Relies on git2::Index::write: flushes the staged state back to disk.
#[verifier::external_body]
pub(crate) fn index_write(index: &mut git2::Index) -> (r: Result<(), git2::Error>) {
    index.write()
}

/// Relies on git2::Index::write_tree: materializes the staged state into a
/// tree object and returns its id.
#[verifier::external_body]
pub(crate) fn index_write_tree(index: &mut git2::Index) -> (r: Result<git2::Oid, git2::Error>) {
    index.write_tree()
}

/// Relies on git2::Signature::now: builds a commit signature from the given
/// author name and email, stamped with the current time.
#[verifier::external_body]
pub(crate) fn signature_now(name: &str, email: &str) -> (r: Result<
    git2::Signature<'static>,
    git2::Error,
>) {
    git2::Signature::now(name, email)
}

/// Relies on git2::Repository::signature: builds a commit signature from the
/// repository's configured identity.
#[verifier::external_body]
pub(crate) fn default_signature(repo: &git2::Repository) -> (r: Result<
    git2::Signature<'static>,
    git2::Error,
>) {
    repo.signature()
}

/// Relies on git2::Repository::head, git2::Reference::resolve,
/// git2::Reference::peel and git2::Commit::id: resolves HEAD down to the id
/// of the commit it points at and records in the handle what was observed —
/// the resolved tip, or no tip at all when HEAD is unborn or unreadable.
/// Used where the handle's record is not yet current: right after opening.
#[verifier::external_body]
pub(crate) fn observe_tip(repo: &mut Repo) -> (r: Result<git2::Oid, git2::Error>)
    ensures
        r matches Ok(id) ==> final (repo).branch_tip() == Some(id),
        r matches Err(_) ==> final (repo).branch_tip() == None::<git2::Oid>,
        final (repo).path() == old(repo).path(),
{
    let resolved = repo.repo.head().and_then(|h| h.resolve()).and_then(|h| h.peel(git2::ObjectType::Commit));
    let commit = resolved.and_then(|obj| obj.into_commit().map_err(|_| git2::Error::from_str("Couldn't find last commit")));
    match commit.map(|c| c.id()) {
        Ok(id) => {
            repo.tip = Some(id);
            Ok(id)
        }
        Err(e) => {
            repo.tip = None;
            Err(e)
        }
    }
}

/// Relies on git2::Repository::commit (with git2::Repository::find_tree and
/// find_commit to look the handed ids up): creates a revision from the tree
/// with exactly the given parent or none, points HEAD's branch at it, and
/// returns its fresh id, recording it as the handle's new tip. The caller
/// hands the handle's recorded tip as the parent; the store itself rejects
/// a commit on a born branch whose first parent is not the current tip, and
/// the branch does not move on failure.
#[verifier::external_body]
pub(crate) fn commit_with_parent(
    repo: &mut Repo,
    sig: &git2::Signature,
    message: &str,
    tree_id: git2::Oid,
    parent: Option<git2::Oid>,
) -> (r: Result<git2::Oid, git2::Error>)
    requires
        parent == old(repo).branch_tip(),
    ensures
        r matches Ok(id) ==> final (repo).branch_tip() == Some(id),
        r matches Err(_) ==> final (repo).branch_tip() == old(repo).branch_tip(),
        final (repo).path() == old(repo).path(),
{
    let tree = repo.repo.find_tree(tree_id)?;
    let created = match parent {
        Some(parent_id) => {
            let parent_commit = repo.repo.find_commit(parent_id)?;
            repo.repo.commit(Some("HEAD"), sig, sig, message, &tree, &[&parent_commit])?
        }
        None => repo.repo.commit(Some("HEAD"), sig, sig, message, &tree, &[])?,
    };
    repo.tip = Some(created);
    Ok(created)
}

/// Relies on git2::Repository::commit, find_tree, find_commit and the
/// repository's configured signature (git2::Repository::signature): creates
/// the merge revision from the merged tree with exactly the two given
/// parents, local first, its message naming the two tips, points HEAD's
/// branch at it, and records it as the handle's new tip; the branch does
/// not move on failure.
#[verifier::external_body]
pub(crate) fn commit_merge(
    repo: &mut Repo,
    tree_id: git2::Oid,
    local_id: git2::Oid,
    remote_id: git2::Oid,
) -> (r: Result<git2::Oid, git2::Error>)
    ensures
        r matches Ok(id) ==> final (repo).branch_tip() == Some(id),
        r matches Err(_) ==> final (repo).branch_tip() == old(repo).branch_tip(),
        final (repo).path() == old(repo).path(),
{
    let sig = repo.repo.signature()?;
    let tree = repo.repo.find_tree(tree_id)?;
    let local = repo.repo.find_commit(local_id)?;
    let remote = repo.repo.find_commit(remote_id)?;
    let msg = format!("Merge: {} into {}", remote_id, local_id);
    let id = repo.repo.commit(Some("HEAD"), &sig, &sig, &msg, &tree, &[&local, &remote])?;
    repo.tip = Some(id);
    Ok(id)
}

/// Relies on git2::Repository::find_reference, git2::Reference::name and
/// name_bytes, git2::Reference::set_target and git2::Repository::set_head:
/// moves the existing reference directly to the given commit, recording a
/// fast-forward reflog message, records the new tip in the handle, and
/// points HEAD at the branch. On failure the handle records the tip only if
/// the reference had already moved.
#[verifier::external_body]
pub(crate) fn branch_move(repo: &mut Repo, refname: &str, id: git2::Oid) -> (r: Result<
    (),
    git2::Error,
>)
    ensures
        r matches Ok(_) ==> final (repo).branch_tip() == Some(id),
        r matches Err(_) ==> (final (repo).branch_tip() == old(repo).branch_tip() || final (repo).branch_tip() == Some(id)),
        final (repo).path() == old(repo).path(),
{
    let mut reference = repo.repo.find_reference(refname)?;
    let name = match reference.name() {
        Some(s) => s.to_string(),
        None => String::from_utf8_lossy(reference.name_bytes()).to_string(),
    };
    let msg = format!("Fast-Forward: Setting {} to id: {}", name, id);
    let _ = reference.set_target(id, &msg)?;
    repo.tip = Some(id);
    repo.repo.set_head(&name)
}

/// Relies on git2::Repository::reference and git2::Repository::set_head:
/// creates (or force-replaces) the reference with the given full name,
/// pointing at the given commit, records the new tip in the handle, and
/// points HEAD at the branch. On failure the handle records the tip only if
/// the reference had already been created.
#[verifier::external_body]
pub(crate) fn branch_create(repo: &mut Repo, refname: &str, id: git2::Oid) -> (r: Result<
    (),
    git2::Error,
>)
    ensures
        r matches Ok(_) ==> final (repo).branch_tip() == Some(id),
        r matches Err(_) ==> (final (repo).branch_tip() == old(repo).branch_tip() || final (repo).branch_tip() == Some(id)),
        final (repo).path() == old(repo).path(),
{
    let msg = format!("Setting {} to {}", refname, id);
    let _ = repo.repo.reference(refname, id, true, &msg)?;
    repo.tip = Some(id);
    repo.repo.set_head(refname)
}

/// Relies on git2::Error::from_str: builds an error value carrying the
/// given message.
#[verifier::external_body]
pub(crate) fn error_from_str(message: &str) -> (r: git2::Error) {
    git2::Error::from_str(message)
}

/// Relies on git2::AnnotatedCommit::id: reads the revision id the annotated
/// commit stands for.
#[verifier::external_body]
pub(crate) fn annotated_oid(commit: &git2::AnnotatedCommit) -> (r: git2::Oid) {
    commit.id()
}

/// Relies on git2::Repository::find_remote: looks a remote up by name,
/// failing when none of that name is configured.
#[verifier::external_body]
pub(crate) fn find_remote<'r>(repo: &'r git2::Repository, name: &str) -> (r: Result<
    git2::Remote<'r>,
    git2::Error,
>) {
    repo.find_remote(name)
}

/// Relies on git2::Remote::fetch: negotiates with the remote over the
/// key-authenticated transport (username "git", no passphrase), downloads
/// the one refspec with all tags, and updates the local fetched refs.
#[verifier::external_body]
pub(crate) fn remote_fetch(remote: &mut git2::Remote, refspec: &str, ssh_pkey: &str) -> (r: Result<
    (),
    git2::Error,
>) {
    let key = ssh_pkey.to_owned();
    let mut cb = git2::RemoteCallbacks::new();
    cb.credentials(move |_url, _uname, _ctype| {
        git2::Cred::ssh_key("git", None, std::path::Path::new(&key), None)
    });
    let mut fo = git2::FetchOptions::new();
    fo.remote_callbacks(cb);
    fo.download_tags(git2::AutotagOption::All);
    remote.fetch(&[refspec], Some(&mut fo), None)
}

/// Relies on git2::Remote::push: transmits the one refspec to the remote
/// over the key-authenticated transport (username "git", no passphrase).
#[verifier::external_body]
pub(crate) fn remote_push(remote: &mut git2::Remote, refspec: &str, ssh_pkey: &str) -> (r: Result<
    (),
    git2::Error,
>) {
    let key = ssh_pkey.to_owned();
    let mut cb = git2::RemoteCallbacks::default();
    cb.credentials(move |_url, _uname, _ctype| {
        git2::Cred::ssh_key("git", None, std::path::Path::new(&key), None)
    });
    let mut po = git2::PushOptions::default();
    po.remote_callbacks(cb).proxy_options(git2::ProxyOptions::new());
    remote.push(&[refspec], Some(&mut po))
}

/// Relies on git2::Repository::find_reference: looks a reference up by its
/// full name, failing when it does not exist.
#[verifier::external_body]
pub(crate) fn find_reference<'r>(repo: &'r git2::Repository, name: &str) -> (r: Result<
    git2::Reference<'r>,
    git2::Error,
>) {
    repo.find_reference(name)
}

/// Relies on git2::Repository::reference_to_annotated_commit: turns the
/// commit a reference points at into an annotated commit.
#[verifier::external_body]
pub(crate) fn annotated_commit_from_ref<'r>(
    repo: &'r git2::Repository,
    reference: &git2::Reference<'r>,
) -> (r: Result<git2::AnnotatedCommit<'r>, git2::Error>) {
    repo.reference_to_annotated_commit(reference)
}

/// Relies on git2::Repository::merge_analysis and the documented
/// git2::MergeAnalysis bit accessors: analyzes merging the given commit into
/// HEAD and returns (is_up_to_date, is_fast_forward, is_normal, is_unborn).
#[verifier::external_body]
pub(crate) fn merge_analysis_flags(
    repo: &git2::Repository,
    their_head: &git2::AnnotatedCommit,
) -> (r: Result<(bool, bool, bool, bool), git2::Error>) {
    let (analysis, _preference) = repo.merge_analysis(&[their_head])?;
    Ok((analysis.is_up_to_date(), analysis.is_fast_forward(), analysis.is_normal(), analysis.is_unborn()))
}

/// Relies on git2::Repository::checkout_head: updates the working tree to
/// match HEAD. `force` overwrites local changes; `allow_conflicts` lets the
/// checkout proceed with merge-style conflict content in place.
#[verifier::external_body]
pub(crate) fn checkout_head_with(repo: &git2::Repository, force: bool, allow_conflicts: bool) -> (r:
    Result<(), git2::Error>) {
    let mut builder = git2::build::CheckoutBuilder::default();
    if force {
        builder.force();
    }
    if allow_conflicts {
        builder.allow_conflicts(true).conflict_style_merge(true);
    }
    repo.checkout_head(Some(&mut builder))
}

/// Relies on git2::Repository::checkout_index: applies the (possibly
/// conflicted) index content to the working tree as-is.
#[verifier::external_body]
pub(crate) fn checkout_index(repo: &git2::Repository, index: &mut git2::Index) -> (r: Result<
    (),
    git2::Error,
>) {
    repo.checkout_index(Some(index), None)
}

/// Relies on git2::Repository::find_commit: looks a commit object up by id.
#[verifier::external_body]
pub(crate) fn find_commit<'r>(repo: &'r git2::Repository, id: git2::Oid) -> (r: Result<
    git2::Commit<'r>,
    git2::Error,
>) {
    repo.find_commit(id)
}

/// Relies on git2::Commit::tree: hands out the tree the commit snapshots.
#[verifier::external_body]
pub(crate) fn commit_tree_of<'r>(commit: &git2::Commit<'r>) -> (r: Result<
    git2::Tree<'r>,
    git2::Error,
>) {
    commit.tree()
}

/// Relies on git2::Repository::merge_base: finds a common ancestor of the
/// two commits, failing when the histories are unrelated.
#[verifier::external_body]
pub(crate) fn merge_base(repo: &git2::Repository, one: git2::Oid, two: git2::Oid) -> (r: Result<
    git2::Oid,
    git2::Error,
>) {
    repo.merge_base(one, two)
}

/// Relies on git2::Repository::merge_trees: three-way merge of the local and
/// remote trees against their ancestor, into a fresh in-memory index.
#[verifier::external_body]
pub(crate) fn merge_trees(
    repo: &git2::Repository,
    ancestor: &git2::Tree,
    ours: &git2::Tree,
    theirs: &git2::Tree,
) -> (r: Result<git2::Index, git2::Error>) {
    repo.merge_trees(ancestor, ours, theirs, None)
}

/// Relies on git2::Index::has_conflicts: whether the merged index carries
/// any conflicted entry.
#[verifier::external_body]
pub(crate) fn index_has_conflicts(index: &git2::Index) -> (r: bool) {
    index.has_conflicts()
}

/// Relies on git2::Index::write_tree_to: materializes the in-memory index
/// into a tree object in the given repository and returns its id.
#[verifier::external_body]
pub(crate) fn index_write_tree_to(index: &mut git2::Index, repo: &git2::Repository) -> (r: Result<
    git2::Oid,
    git2::Error,
>) {
    index.write_tree_to(repo)
}

} // verus!
