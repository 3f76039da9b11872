use vstd::prelude::*;

verus! {

/// The result of one successful commit: the new revision id and the id of
/// its sole parent, absent for the first revision in a repository's history.
#[derive(Clone, Copy, Debug)]
pub struct CommitRecord {
    pub id: git2::Oid,
    pub parent: Option<git2::Oid>,
}

/// The record a commit must produce, given the new revision id and the
/// branch tip the repository reported just before the commit.
pub open spec fn spec_record(new_id: git2::Oid, tip: Option<git2::Oid>) -> CommitRecord {
    CommitRecord { id: new_id, parent: tip }
}

/// Builds the record of a freshly created commit: its parent is exactly the
/// prior branch tip, or absent when the repository had no tip.
pub fn record_of(new_id: git2::Oid, tip: Option<git2::Oid>) -> (r: CommitRecord)
    ensures
        r == spec_record(new_id, tip),
{
    CommitRecord { id: new_id, parent: tip }
}

/// The tip after a sequence of commits: the id of the last one, if any.
pub open spec fn tip_of(h: Seq<CommitRecord>) -> Option<git2::Oid> {
    if h.len() == 0 {
        None
    } else {
        Some(h.last().id)
    }
}

/// A well-formed commit history: the first revision has no parent, and every
/// later revision has exactly one parent, the revision created just before it.
pub open spec fn wf_history(h: Seq<CommitRecord>) -> bool {
    forall|i: int|
        0 <= i < h.len() ==> (#[trigger] h[i]).parent == (if i == 0 {
            None::<git2::Oid>
        } else {
            Some(h[i - 1].id)
        })
}

/// The history with no commits yet is well-formed: the induction base for
/// `lemma_commit_extends_history`.
pub proof fn lemma_empty_history_wf()
    ensures
        wf_history(Seq::<CommitRecord>::empty()),
{
}

/// Committing on top of any well-formed history keeps it well-formed: a
/// commit on an empty history gets zero parents, and every subsequent commit
/// gets exactly one parent, the prior tip. Holds for commit sequences of any
/// length, by induction from `lemma_empty_history_wf`.
pub proof fn lemma_commit_extends_history(h: Seq<CommitRecord>, new_id: git2::Oid)
    requires
        wf_history(h),
    ensures
        wf_history(h.push(spec_record(new_id, tip_of(h)))),
{
    let h2 = h.push(spec_record(new_id, tip_of(h)));
    assert forall|i: int|
        0 <= i < h2.len() implies (#[trigger] h2[i]).parent == (if i == 0 {
        None::<git2::Oid>
    } else {
        Some(h2[i - 1].id)
    }) by {
        if i < h.len() {
            assert(h2[i] == h[i]);
        } else {
            assert(h2[i] == spec_record(new_id, tip_of(h)));
        }
    }
}

} // verus!
