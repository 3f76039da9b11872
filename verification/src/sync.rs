use vstd::prelude::*;

use crate::repo::Repo;
use crate::store;

verus! {

/// Tagged outcome of comparing the local branch tip against a fetched
/// remote tip.
#[derive(Clone, Copy, Debug)]
pub enum MergeAnalysisResult {
    /// The remote tip is already an ancestor of (or equal to) the local tip.
    UpToDate,
    /// The local tip is an ancestor of the remote tip.
    FastForwardPossible,
    /// Neither tip is an ancestor of the other.
    NormalMergeRequired,
    /// No common history, or the local repository has no commits yet.
    Unrelated,
}

/// Tagged result of executing a merge.
#[derive(Debug)]
pub enum MergeOutcome {
    /// The branch was moved (or created) directly at the fetched commit.
    FastForwarded(git2::Oid),
    /// A merge revision with two parents was created.
    Merged(git2::Oid),
    /// The conflicted merge result was left in the working tree for manual
    /// resolution; no merge revision was created.
    ConflictsLeftInWorkingTree,
    /// Nothing needed doing.
    NoOp,
}

/// Which action the sync engine drives after analysis.
#[derive(Clone, Copy, Debug)]
pub enum SyncAction {
    /// No-op: already up to date.
    Nothing,
    /// Move the existing branch reference directly to the remote tip.
    MoveRef,
    /// The branch reference does not exist yet (fresh or unborn repository):
    /// create it pointing at the remote tip instead of moving it.
    CreateRef,
    /// Compute a three-way merge of the two tips over their common ancestor.
    ThreeWayMerge,
}

/// What the four analysis flags reported by the repository store mean:
/// up-to-date wins over everything, an unborn HEAD means the histories are
/// unrelated, and only when neither a fast-forward nor a normal merge is
/// possible is there nothing to do.
pub open spec fn spec_classify(
    up_to_date: bool,
    fast_forward: bool,
    normal: bool,
    unborn: bool,
) -> MergeAnalysisResult {
    if up_to_date {
        MergeAnalysisResult::UpToDate
    } else if unborn {
        MergeAnalysisResult::Unrelated
    } else if fast_forward {
        MergeAnalysisResult::FastForwardPossible
    } else if normal {
        MergeAnalysisResult::NormalMergeRequired
    } else {
        MergeAnalysisResult::UpToDate
    }
}

/// Classifies one merge analysis, exactly as `spec_classify` says.
pub fn classify_analysis(up_to_date: bool, fast_forward: bool, normal: bool, unborn: bool) -> (r:
    MergeAnalysisResult)
    ensures
        r == spec_classify(up_to_date, fast_forward, normal, unborn),
{
    if up_to_date {
        MergeAnalysisResult::UpToDate
    } else if unborn {
        MergeAnalysisResult::Unrelated
    } else if fast_forward {
        MergeAnalysisResult::FastForwardPossible
    } else if normal {
        MergeAnalysisResult::NormalMergeRequired
    } else {
        MergeAnalysisResult::UpToDate
    }
}

/// The merge state machine's branch table: which action each analysis
/// demands, given whether the tracked branch reference exists locally. A
/// possible fast-forward onto a branch that does not exist yet creates the
/// reference rather than failing, and unrelated histories are treated the
/// same way.
pub open spec fn spec_plan(analysis: MergeAnalysisResult, branch_exists: bool) -> SyncAction {
    match analysis {
        MergeAnalysisResult::UpToDate => SyncAction::Nothing,
        MergeAnalysisResult::FastForwardPossible => if branch_exists {
            SyncAction::MoveRef
        } else {
            SyncAction::CreateRef
        },
        MergeAnalysisResult::Unrelated => SyncAction::CreateRef,
        MergeAnalysisResult::NormalMergeRequired => SyncAction::ThreeWayMerge,
    }
}

/// Picks the merge action, exactly as `spec_plan` says.
pub fn plan_merge(analysis: MergeAnalysisResult, branch_exists: bool) -> (a: SyncAction)
    ensures
        a == spec_plan(analysis, branch_exists),
{
    match analysis {
        MergeAnalysisResult::UpToDate => SyncAction::Nothing,
        MergeAnalysisResult::FastForwardPossible => {
            if branch_exists {
                SyncAction::MoveRef
            } else {
                SyncAction::CreateRef
            }
        },
        MergeAnalysisResult::Unrelated => SyncAction::CreateRef,
        MergeAnalysisResult::NormalMergeRequired => SyncAction::ThreeWayMerge,
    }
}

/// Fetches the one tracked refspec from the remote and returns the commit
/// the local fetched ref then points at. The handle is taken immutably: a
/// fetch only updates the fetched refs and the object store, never the
/// tracked branch, so the handle's recorded tip is untouched by type alone.
fn do_fetch<'r>(
    repo: &'r Repo,
    refspec: &str,
    remote: &mut git2::Remote,
    ssh_pkey: &str,
) -> (r: Result<git2::AnnotatedCommit<'r>, git2::Error>) {
    store::remote_fetch(remote, refspec, ssh_pkey)?;
    let fetch_head = store::find_reference(&repo.repo, "FETCH_HEAD")?;
    store::annotated_commit_from_ref(&repo.repo, &fetch_head)
}

/// Moves the existing branch reference directly to the fetched commit and
/// forces the checked-out tree to match it: a fast-forward ends exactly at
/// the fetched commit, and no new revision is created.
fn fast_forward(repo: &mut Repo, branch_refname: &str, fetched_id: git2::Oid) -> (r: Result<
    MergeOutcome,
    git2::Error,
>)
    ensures
        r matches Ok(o) ==> (o == MergeOutcome::FastForwarded(fetched_id) && final (repo).branch_tip() == Some(fetched_id)),
        r matches Err(_) ==> (final (repo).branch_tip() == old(repo).branch_tip() || final (repo).branch_tip() == Some(fetched_id)),
{
    store::branch_move(repo, branch_refname, fetched_id)?;
    store::checkout_head_with(&repo.repo, true, false)?;
    Ok(MergeOutcome::FastForwarded(fetched_id))
}

/// The fresh-clone case: the branch reference does not exist yet, so create
/// it pointing at the fetched commit, point HEAD at it, and update the
/// working tree, letting conflict-style content stand. The created
/// reference points exactly at the fetched commit.
fn create_branch(repo: &mut Repo, branch_refname: &str, fetched_id: git2::Oid) -> (r: Result<
    MergeOutcome,
    git2::Error,
>)
    ensures
        r matches Ok(o) ==> (o == MergeOutcome::FastForwarded(fetched_id) && final (repo).branch_tip() == Some(fetched_id)),
        r matches Err(_) ==> (final (repo).branch_tip() == old(repo).branch_tip() || final (repo).branch_tip() == Some(fetched_id)),
{
    store::branch_create(repo, branch_refname, fetched_id)?;
    store::checkout_head_with(&repo.repo, true, true)?;
    Ok(MergeOutcome::FastForwarded(fetched_id))
}

/// Finishes a three-way merge once the merged index's conflict state is
/// known: a conflicted index is applied to the working tree as-is, no merge
/// revision is created and the branch tip stands, while a clean index is
/// committed as a merge revision with the local and remote tips as its two
/// parents, in that order, and the working tree is updated to match.
fn finish_merge(
    repo: &mut Repo,
    has_conflicts: bool,
    merged: &mut git2::Index,
    local_id: git2::Oid,
    remote_id: git2::Oid,
) -> (r: Result<MergeOutcome, git2::Error>)
    ensures
        has_conflicts ==> ((r matches Err(_) || r == Ok::<MergeOutcome, git2::Error>(
            MergeOutcome::ConflictsLeftInWorkingTree,
        )) && final (repo).branch_tip() == old(repo).branch_tip()),
        !has_conflicts ==> (r matches Ok(o) ==> (o matches MergeOutcome::Merged(id) && final (repo).branch_tip() == Some(id))),
        r matches Err(_) ==> (final (repo).branch_tip() == old(repo).branch_tip() || final (repo).branch_tip() is Some),
{
    if has_conflicts {
        store::checkout_index(&repo.repo, merged)?;
        Ok(MergeOutcome::ConflictsLeftInWorkingTree)
    } else {
        let tree_id = store::index_write_tree_to(merged, &repo.repo)?;
        let merge_id = store::commit_merge(repo, tree_id, local_id, remote_id)?;
        store::checkout_head_with(&repo.repo, false, false)?;
        Ok(MergeOutcome::Merged(merge_id))
    }
}

/// Three-way merge of the local and remote tips over the given common
/// ancestor. Whether a merge revision is created is decided by the merged
/// index's conflict state alone, exactly as `finish_merge`'s contract says.
fn normal_merge(repo: &mut Repo, local_id: git2::Oid, remote_id: git2::Oid, base_id: git2::Oid) -> (r:
    Result<MergeOutcome, git2::Error>)
    ensures
        r matches Ok(o) ==> ((o matches MergeOutcome::Merged(id) && final (repo).branch_tip()
            == Some(id)) || (o == MergeOutcome::ConflictsLeftInWorkingTree && final (repo).branch_tip() == old(repo).branch_tip())),
        r matches Err(_) ==> (final (repo).branch_tip() == old(repo).branch_tip() || final (repo).branch_tip() is Some),
{
    let mut merged = {
        let local_commit = store::find_commit(&repo.repo, local_id)?;
        let remote_commit = store::find_commit(&repo.repo, remote_id)?;
        let base_commit = store::find_commit(&repo.repo, base_id)?;
        let local_tree = store::commit_tree_of(&local_commit)?;
        let remote_tree = store::commit_tree_of(&remote_commit)?;
        let ancestor_tree = store::commit_tree_of(&base_commit)?;
        store::merge_trees(&repo.repo, &ancestor_tree, &local_tree, &remote_tree)?
    };
    let has_conflicts = store::index_has_conflicts(&merged);
    finish_merge(repo, has_conflicts, &mut merged, local_id, remote_id)
}

/// Drives one fetched commit through the merge state machine: pick the
/// action from the branch table for the given analysis, and execute it
/// against the branch reference named by `branch_refname`. The analysis
/// pins the admissible outcomes: up-to-date touches nothing, a (possible or
/// unrelated) fast-forward ends exactly at the fetched commit, and a
/// required merge ends merged or conflicted — or, when no common ancestor
/// exists (a missing merge base, or no local tip at all), falls back to
/// creating the branch at the fetched commit instead of failing.
fn do_merge(
    repo: &mut Repo,
    branch_refname: &str,
    fetched_id: git2::Oid,
    analysis: MergeAnalysisResult,
) -> (r: Result<MergeOutcome, git2::Error>)
    ensures
        analysis == MergeAnalysisResult::UpToDate ==> (r matches Ok(o) && o
            matches MergeOutcome::NoOp && final (repo).branch_tip() == old(repo).branch_tip()),
        analysis == MergeAnalysisResult::FastForwardPossible || analysis
            == MergeAnalysisResult::Unrelated ==> (r matches Ok(o) ==> (o
            == MergeOutcome::FastForwarded(fetched_id) && final (repo).branch_tip() == Some(
            fetched_id,
        ))),
        analysis == MergeAnalysisResult::NormalMergeRequired ==> (r matches Ok(o) ==> ((o
            matches MergeOutcome::Merged(id) && final (repo).branch_tip() == Some(id)) || (o
            == MergeOutcome::ConflictsLeftInWorkingTree && final (repo).branch_tip() == old(
            repo,
        ).branch_tip()) || (o == MergeOutcome::FastForwarded(fetched_id) && final (repo).branch_tip() == Some(fetched_id)))),
        r matches Err(_) ==> (final (repo).branch_tip() == old(repo).branch_tip() || final (repo).branch_tip() is Some),
{
    let branch_exists = store::find_reference(&repo.repo, branch_refname).is_ok();
    match plan_merge(analysis, branch_exists) {
        SyncAction::Nothing => Ok(MergeOutcome::NoOp),
        SyncAction::MoveRef => fast_forward(repo, branch_refname, fetched_id),
        SyncAction::CreateRef => create_branch(repo, branch_refname, fetched_id),
        SyncAction::ThreeWayMerge => {
            match repo.current_tip() {
                Some(local_id) => {
                    match store::merge_base(&repo.repo, local_id, fetched_id) {
                        Ok(base_id) => normal_merge(repo, local_id, fetched_id, base_id),
                        // no common ancestor: the unrelated-histories row,
                        // create the branch fresh rather than failing
                        Err(_) => create_branch(repo, branch_refname, fetched_id),
                    }
                },
                // no local tip to merge into: the same unrelated row
                None => create_branch(repo, branch_refname, fetched_id),
            }
        },
    }
}

/// One sync pass against the "origin" remote tracking the fixed "master"
/// branch: fetch, analyze, then fast-forward, three-way merge, or nothing,
/// as the state machine decides. Fails with the store's error when the
/// remote is missing or unreachable or a sub-operation fails; a conflicted
/// merge is a reported outcome, not an error. The handle's recorded tip
/// follows the outcome: it is the fast-forwarded or merged revision, and
/// stands untouched when nothing was done or conflicts were left behind; a
/// failed pass never erases it.
pub fn pull(repo: &mut Repo, ssh_pkey: &str) -> (r: Result<MergeOutcome, git2::Error>)
    ensures
        r matches Ok(o) ==> match o {
            MergeOutcome::FastForwarded(id) => final (repo).branch_tip() == Some(id),
            MergeOutcome::Merged(id) => final (repo).branch_tip() == Some(id),
            MergeOutcome::NoOp => final (repo).branch_tip() == old(repo).branch_tip(),
            MergeOutcome::ConflictsLeftInWorkingTree => final (repo).branch_tip() == old(
                repo,
            ).branch_tip(),
        },
        r matches Err(_) ==> (final (repo).branch_tip() == old(repo).branch_tip() || final (repo).branch_tip() is Some),
{
    let (fetched_id, analysis) = {
        let mut remote = store::find_remote(&repo.repo, "origin")?;
        let fetch_commit = do_fetch(repo, "master", &mut remote, ssh_pkey)?;
        let id = store::annotated_oid(&fetch_commit);
        let (up_to_date, fast_fwd, normal, unborn) = store::merge_analysis_flags(
            &repo.repo,
            &fetch_commit,
        )?;
        (id, classify_analysis(up_to_date, fast_fwd, normal, unborn))
    };
    do_merge(repo, "refs/heads/master", fetched_id, analysis)
}

} // verus!
