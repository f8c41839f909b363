//! The repository snapshot: the clean/dirty classification of a working tree
//! and the abbreviated name of the current branch.

use vstd::prelude::*;

use crate::branch;
use crate::gitcall;

verus! {

/// The status bits of a working-tree entry that git reports as ignored.
/// An entry carrying exactly these bits is excluded before the clean/dirty
/// decision.
pub const IGNORED_STATUS: u32 = 16384;

/// The outcome of checking a path: no repository there, or a repository
/// whose working tree is clean, or one with at least one non-ignored
/// status entry.
#[derive(PartialEq, Eq, Structural, Copy, Clone, Debug)]
pub enum GitRepoStatus {
    NoRepo,
    GitClean,
    GitDirty,
}

/// A snapshot of one repository check: the classification and, when a
/// repository was opened, the abbreviated current branch name.
#[derive(PartialEq, Clone, Debug)]
pub struct GitRepo {
    pub status: GitRepoStatus,
    pub current_branch: Option<String>,
}

/// A sequence of status entries is dirty when at least one entry is not
/// marked as ignored.
pub open spec fn is_dirty(entries: Seq<u32>) -> bool {
    exists|i: int| 0 <= i < entries.len() && entries[i] != IGNORED_STATUS
}

/// The classification of a repository whose status entries were enumerated:
/// dirty when a non-ignored entry remains, clean otherwise.
pub open spec fn classify_spec(entries: Seq<u32>) -> GitRepoStatus {
    if is_dirty(entries) {
        GitRepoStatus::GitDirty
    } else {
        GitRepoStatus::GitClean
    }
}

/// Classifies enumerated status entries: dirty when at least one entry is
/// not ignored, clean when every entry (if any) is ignored.
pub fn classify_entries(entries: &Vec<u32>) -> (r: GitRepoStatus)
    ensures
        r == classify_spec(entries@),
{
    let mut i: usize = 0;
    while i < entries.len()
        invariant
            i <= entries.len(),
            forall|j: int| 0 <= j < i ==> entries@[j] == IGNORED_STATUS,
        decreases entries.len() - i,
    {
        if entries[i] != IGNORED_STATUS {
            return GitRepoStatus::GitDirty;
        }
        i += 1;
    }
    GitRepoStatus::GitClean
}

/// What a snapshot must say of one check's observations: when the status
/// enumeration failed (entries is None) the snapshot falls back to no
/// repository and no branch; when it succeeded, the status classifies the
/// entries and the resolved branch label is attached.
pub open spec fn matches_observations(
    g: GitRepo,
    branch: Option<String>,
    entries: Option<Vec<u32>>,
) -> bool {
    match entries {
        None => g.status is NoRepo && g.current_branch is None,
        Some(es) => g.status == classify_spec(es@) && g.current_branch == branch,
    }
}

impl GitRepo {
    /// A snapshot is well formed when a check that found no repository
    /// carries no branch, and any branch label fits the abbreviated form.
    pub open spec fn wf(self) -> bool {
        &&& self.status is NoRepo ==> self.current_branch is None
        &&& self.current_branch matches Some(b) ==> b@.len() <= 10
    }

    /// Builds the snapshot from what one check observed: the resolved branch
    /// label and, when the status enumeration succeeded, its entries. A
    /// failed enumeration degrades to the fallback snapshot, branch label
    /// included.
    pub fn from_observations(branch: Option<String>, entries: Option<Vec<u32>>) -> (r: GitRepo)
        ensures
            matches_observations(r, branch, entries),
    {
        match entries {
            None => GitRepo::default(),
            Some(es) => {
                let status = classify_entries(&es);
                GitRepo { status, current_branch: branch }
            },
        }
    }

    /// Checks the path: opens the repository there, resolves its branch and
    /// classifies its working tree.
    ///
    /// Ok(g) is the snapshot: no repository when the path cannot be opened
    /// or the status enumeration failed, clean or dirty otherwise, with the
    /// abbreviated branch label attached. Err(detail) is an unexpected
    /// branch-lookup failure, for the caller to treat as fatal.
    pub fn get_status(path: &String) -> (r: Result<GitRepo, String>)
        ensures
            r matches Ok(g) ==> g.wf(),
    {
        match gitcall::open_repository(path) {
            None => Ok(GitRepo::default()),
            Some(repo) => match branch::current_branch(&repo) {
                Err(detail) => Err(detail),
                Ok(label) => {
                    let entries = match gitcall::statuses_of(&repo) {
                        Ok(es) => Some(es),
                        Err(_) => None,
                    };
                    Ok(GitRepo::from_observations(label, entries))
                },
            },
        }
    }
}

/// A status enumeration with no entries at all classifies as clean.
pub proof fn lemma_no_entries_is_clean(entries: Seq<u32>)
    requires
        entries.len() == 0,
    ensures
        classify_spec(entries) == GitRepoStatus::GitClean,
{
}

/// One entry that is not marked ignored makes the classification dirty,
/// whatever the other entries hold.
pub proof fn lemma_non_ignored_entry_is_dirty(entries: Seq<u32>, i: int)
    requires
        0 <= i < entries.len(),
        entries[i] != IGNORED_STATUS,
    ensures
        classify_spec(entries) == GitRepoStatus::GitDirty,
{
}

/// A repository whose only status entries are ignored ones classifies as
/// clean: ignored entries are excluded before the clean/dirty decision.
pub proof fn lemma_ignored_only_is_clean(entries: Seq<u32>)
    requires
        forall|i: int| 0 <= i < entries.len() ==> entries[i] == IGNORED_STATUS,
    ensures
        classify_spec(entries) == GitRepoStatus::GitClean,
{
}

/// Checking an unchanged repository twice is idempotent: two snapshots built
/// from the same observed branch and the same status entries carry the same
/// classification and the same branch label.
pub proof fn lemma_snapshot_idempotent(
    g1: GitRepo,
    g2: GitRepo,
    branch: Option<String>,
    entries: Option<Vec<u32>>,
)
    requires
        matches_observations(g1, branch, entries),
        matches_observations(g2, branch, entries),
    ensures
        g1.status == g2.status,
        g1.current_branch == g2.current_branch,
{
}

impl Default for GitRepo {
    /// The fallback snapshot: no repository, no branch.
    fn default() -> (r: Self)
        ensures
            r.status is NoRepo,
            r.current_branch is None,
    {
        GitRepo { status: GitRepoStatus::NoRepo, current_branch: None }
    }
}

} // verus!
