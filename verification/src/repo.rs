use vstd::prelude::*;

use crate::history::{
    lemma_commit_extends_history, record_of, spec_record, tip_of, wf_history, CommitRecord,
};
use crate::store;

verus! {

/// Why one commit attempt failed. All three are fatal only to that attempt:
/// the daemon keeps waiting for the next burst.
#[derive(Debug)]
pub enum CommitError {
    /// Some path could not be staged.
    StagingFailed(git2::Error),
    /// The staged state could not be materialized into a tree object.
    TreeWriteFailed(git2::Error),
    /// Revision creation itself failed, e.g. on an invalid signature.
    CommitWriteFailed(git2::Error),
}

/// An open handle on the on-disk repository, exclusively owned by whichever
/// engine currently performs an operation on it: no other writer may touch
/// the repository while the handle lives.
///
/// `tip` is the handle's record of the tracked branch tip, bound by
/// observation when the handle is opened and rewritten by exactly the
/// trusted store operations that move the branch; no other code assigns it.
/// Contracts speak of it through `branch_tip`.
pub struct Repo {
    pub repo_path: String,
    pub repo: git2::Repository,
    pub(crate) tip: Option<git2::Oid>,
}

impl Repo {
    /// The tracked branch tip as the handle records it: the commit the
    /// branch points at, absent while the branch is unborn.
    pub closed spec fn branch_tip(&self) -> Option<git2::Oid> {
        self.tip
    }

    /// The path the handle was opened on.
    pub closed spec fn path(&self) -> Seq<char> {
        self.repo_path@
    }

    /// Reads the recorded branch tip.
    pub fn current_tip(&self) -> (r: Option<git2::Oid>)
        ensures
            r == self.branch_tip(),
    {
        self.tip
    }

    /// Open-or-create the repository at `repo_path`.
    pub fn new(repo_path: &str) -> (r: Result<Repo, git2::Error>)
        ensures
            r matches Ok(handle) ==> handle.path() == repo_path@,
    {
        let repo = store::repository_init(repo_path)?;
        let mut handle = Repo { repo_path: repo_path.to_owned(), repo, tip: None };
        // bind the record to whatever the branch points at right now
        let _ = store::observe_tip(&mut handle);
        Ok(handle)
    }

    /// Open the already-initialized repository at `repo_path`.
    pub fn open(repo_path: &str) -> (r: Result<Repo, git2::Error>)
        ensures
            r matches Ok(handle) ==> handle.path() == repo_path@,
    {
        let repo = store::repository_open(repo_path)?;
        let mut handle = Repo { repo_path: repo_path.to_owned(), repo, tip: None };
        // bind the record to whatever the branch points at right now
        let _ = store::observe_tip(&mut handle);
        Ok(handle)
    }

    /// Resolve the current branch tip, failing when the repository's history
    /// is still empty or HEAD was unreadable when the handle was opened.
    pub fn find_last_commit<'r>(&'r self) -> (r: Result<git2::Commit<'r>, git2::Error>)
        ensures
            r matches Ok(_) ==> self.branch_tip() is Some,
            self.branch_tip() is None ==> r matches Err(_),
    {
        match self.tip {
            Some(id) => store::find_commit(&self.repo, id),
            None => Err(store::error_from_str("Couldn't find last commit")),
        }
    }
}

/// Snapshots the whole working tree into one new revision.
///
/// Stages every path under the repository root, materializes the stage into
/// a tree, and commits that tree with the current branch tip as sole parent;
/// when no tip exists (empty or unborn repository, or an unreadable HEAD
/// when the handle was opened), the revision is created with no parents
/// instead of aborting. The record's parent is exactly the tip the handle
/// held before the call, the tip afterwards is the new revision, and
/// pushing the record onto any well-formed history whose tip matched keeps
/// that history well-formed. Each stage's failure is classified by the
/// error variant that names it.
pub fn add_all_and_commit(repo: &mut Repo, message: &str, sign_name: &str, sign_email: &str) -> (r:
    Result<CommitRecord, CommitError>)
    ensures
        r matches Ok(rec) ==> rec.parent == old(repo).branch_tip() && final (repo).branch_tip()
            == Some(rec.id),
        r matches Err(_) ==> final (repo).branch_tip() == old(repo).branch_tip(),
        r matches Ok(rec) ==> (forall|h: Seq<CommitRecord>|
            wf_history(h) && tip_of(h) == old(repo).branch_tip() ==> #[trigger] wf_history(
                h.push(rec),
            )),
{
    let mut index = match store::repo_index(&repo.repo) {
        Ok(i) => i,
        Err(e) => { return Err(CommitError::StagingFailed(e)); },
    };
    if let Err(e) = store::index_add_all(&mut index, "*") {
        return Err(CommitError::StagingFailed(e));
    }
    if let Err(e) = store::index_write(&mut index) {
        return Err(CommitError::StagingFailed(e));
    }
    let tree_id = match store::index_write_tree(&mut index) {
        Ok(id) => id,
        Err(e) => { return Err(CommitError::TreeWriteFailed(e)); },
    };
    let sig = match store::signature_now(sign_name, sign_email) {
        Ok(s) => s,
        Err(e) => { return Err(CommitError::CommitWriteFailed(e)); },
    };
    let tip: Option<git2::Oid> = repo.current_tip();
    let new_id = match store::commit_with_parent(repo, &sig, message, tree_id, tip) {
        Ok(id) => id,
        Err(e) => { return Err(CommitError::CommitWriteFailed(e)); },
    };
    let rec = record_of(new_id, tip);
    proof {
        assert forall|h: Seq<CommitRecord>|
            wf_history(h) && tip_of(h) == old(repo).branch_tip() implies #[trigger] wf_history(
            h.push(rec),
        ) by {
            assert(rec == spec_record(rec.id, tip_of(h)));
            lemma_commit_extends_history(h, rec.id);
        }
    }
    Ok(rec)
}

/// Creates the initial empty revision: an empty tree committed with no
/// parents, authored with the repository's configured signature. It
/// succeeds only while the tracked branch has no tip yet; on a branch that
/// already has one it reports an error and moves nothing.
pub fn create_initial_commit(repo: &mut Repo) -> (r: Result<(), git2::Error>)
    ensures
        old(repo).branch_tip() is Some ==> r matches Err(_),
        r matches Ok(_) ==> old(repo).branch_tip() is None && final (repo).branch_tip() is Some,
        r matches Err(_) ==> final (repo).branch_tip() == old(repo).branch_tip(),
        final (repo).path() == old(repo).path(),
{
    let sig = store::default_signature(&repo.repo)?;
    let mut index = store::repo_index(&repo.repo)?;
    let tree_id = store::index_write_tree(&mut index)?;
    match repo.current_tip() {
        Some(_) => Err(store::error_from_str("a revision already exists on the current branch")),
        None => {
            store::commit_with_parent(repo, &sig, "Initial commit", tree_id, None)?;
            Ok(())
        },
    }
}

/// Opens or creates the repository at `repo_path`, registers the remote when
/// one is configured, and creates the initial revision when the history is
/// still empty. A remote that already exists, or a history that already has
/// revisions, is left as it is.
pub fn init_repo(repo_path: String, remote_url: Option<&str>) -> (r: Result<Repo, git2::Error>)
    ensures
        r matches Ok(handle) ==> handle.path() == repo_path@,
{
    let mut repo = Repo::new(repo_path.as_str())?;
    match remote_url {
        Some(url) => {
            let _ = store::remote_add(&repo.repo, "origin", url);
        },
        None => {},
    }
    let _ = create_initial_commit(&mut repo);
    Ok(repo)
}

} // verus!
