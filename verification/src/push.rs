use vstd::prelude::*;

use crate::history::CommitRecord;
use crate::repo::{add_all_and_commit, CommitError, Repo};
use crate::store;

verus! {

/// How one push attempt (or its absence) went. Every variant but `Pushed`
/// leaves the just-created commit standing in local history untouched: the
/// push engine only reads the repository.
#[derive(Debug)]
pub enum PushOutcome {
    /// Remote synchronization is disabled; no push was attempted.
    NotRequested,
    /// The branch ref was transmitted to the remote.
    Pushed,
    /// No remote is configured: a non-fatal, reported condition.
    RemoteMissing(git2::Error),
    /// The remote rejected the push or the transport failed: non-fatal.
    Rejected(git2::Error),
}

/// Pushes the tracked branch's current ref to the "origin" remote with
/// key-based authentication, resolving the identity at call time. Always
/// reports how the attempt went, never that none was made.
pub fn push_to_origin(repo: &Repo, ssh_pkey: &str) -> (r: PushOutcome)
    ensures
        !(r matches PushOutcome::NotRequested),
{
    match store::find_remote(&repo.repo, "origin") {
        Err(e) => PushOutcome::RemoteMissing(e),
        Ok(mut remote) => match store::remote_push(&mut remote, "refs/heads/master", ssh_pkey) {
            Ok(_) => PushOutcome::Pushed,
            Err(e) => PushOutcome::Rejected(e),
        },
    }
}

/// The outcome of one full pass of the commit pipeline for a settled burst.
#[derive(Debug)]
pub enum BackupOutcome {
    /// The commit stands in local history; the push outcome beside it says
    /// what happened afterwards and changes nothing about the commit.
    Committed(CommitRecord, PushOutcome),
    /// The repository could not be opened: nothing was committed.
    OpenFailed(git2::Error),
    /// The commit attempt failed: fatal to this attempt only.
    CommitFailed(CommitError),
}

/// One full pass: open the repository, commit the working tree, and push
/// when (and only when) `should_push` asks for it. A push is attempted
/// exactly when the commit succeeded and `should_push` holds; without
/// `should_push` a successful commit always reports `NotRequested`.
pub fn add_all_changed(
    repo_path: &str,
    default_commit_msg: &str,
    sign_name: &str,
    sign_email: &str,
    should_push: bool,
    ssh_pkey: &str,
) -> (r: BackupOutcome)
    ensures
        !should_push ==> (r matches BackupOutcome::Committed(_, po) ==> po
            == PushOutcome::NotRequested),
        should_push ==> (r matches BackupOutcome::Committed(_, po) ==> !(po
            matches PushOutcome::NotRequested)),
{
    let mut repo = match Repo::open(repo_path) {
        Ok(r) => r,
        Err(e) => { return BackupOutcome::OpenFailed(e); },
    };
    match add_all_and_commit(&mut repo, default_commit_msg, sign_name, sign_email) {
        Err(e) => BackupOutcome::CommitFailed(e),
        Ok(record) => {
            if should_push {
                let push_outcome = push_to_origin(&repo, ssh_pkey);
                BackupOutcome::Committed(record, push_outcome)
            } else {
                BackupOutcome::Committed(record, PushOutcome::NotRequested)
            }
        },
    }
}

} // verus!
