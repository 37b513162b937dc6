//! The worktree registry: listing worktrees, most recent first, and finding
//! one by its name or by the branch that is checked out in it.

use vstd::prelude::*;
use crate::branch::find_branch;
use crate::error::EngineError;
use crate::names::{normalize_workspace_name, normalized};
use crate::order::{first_index, is_first_at, is_recency_order, lemma_first_index,
    lemma_recency_order, pick, precedes, recency_order, recency_positions};
use crate::repo::{branch_names, copy_opt, distinct, worktree_branches, worktree_names, BranchView,
    RepoSnapshot, RepoView, WorktreeEntry, WorktreeRecord, WorktreeRecordView, WorktreeView};

verus! {

/// The time of the last commit on the branch of a worktree: that of the first
/// local branch with the name of the checked-out branch.
pub open spec fn commit_time_of(local_branches: Seq<BranchView>, w: WorktreeView) -> Option<i64> {
    match w.branch {
        Some(b) => match first_index(branch_names(local_branches), b) {
            Some(i) => Some(local_branches[i].commit_time),
            None => None,
        },
        None => None,
    }
}

/// The worktrees that can be ranked, in enumeration order: those whose
/// checked-out branch is a local branch.
pub open spec fn ranked_worktrees(repo: RepoView) -> Seq<WorktreeRecordView>
    decreases repo.worktrees.len(),
{
    if repo.worktrees.len() == 0 {
        Seq::empty()
    } else {
        let w = repo.worktrees.last();
        let rest = ranked_worktrees(RepoView { worktrees: repo.worktrees.drop_last(), ..repo });
        match commit_time_of(repo.local_branches, w) {
            Some(t) => rest.push(
                WorktreeRecordView { name: w.name, filesystem_path: w.path, last_commit_time: t },
            ),
            None => rest,
        }
    }
}

/// The commit times of a list of worktree records.
pub open spec fn record_times(records: Seq<WorktreeRecordView>) -> Seq<i64> {
    Seq::new(records.len(), |i: int| records[i].last_commit_time)
}

/// The names of a list of worktree records.
pub open spec fn record_names(records: Seq<WorktreeRecordView>) -> Seq<Seq<char>> {
    Seq::new(records.len(), |i: int| records[i].name)
}

/// The worktrees in the order in which they are offered: those that can be
/// ranked, by descending commit time, equal times in enumeration order.
pub open spec fn listed_worktrees(repo: RepoView) -> Seq<WorktreeRecordView> {
    pick(ranked_worktrees(repo), recency_order(record_times(ranked_worktrees(repo))))
}

/// The first worktree with the given name.
pub open spec fn worktree_named(repo: RepoView, name: Seq<char>) -> Option<WorktreeView> {
    match first_index(worktree_names(repo.worktrees), name) {
        Some(i) => Some(repo.worktrees[i]),
        None => None,
    }
}

/// The first worktree that has the given branch checked out.
pub open spec fn worktree_on_branch(repo: RepoView, branch: Seq<char>) -> Option<WorktreeView> {
    match first_index(worktree_branches(repo.worktrees), Some(branch)) {
        Some(i) => Some(repo.worktrees[i]),
        None => None,
    }
}

/// Every ranked worktree is a worktree of the repository whose branch is a
/// local branch, and it carries that branch's commit time.
pub proof fn lemma_ranked_worktrees(repo: RepoView)
    ensures
        ranked_worktrees(repo).len() <= repo.worktrees.len(),
        forall|k: int|
            0 <= k < ranked_worktrees(repo).len() ==> exists|i: int|
                0 <= i < repo.worktrees.len() && (#[trigger] ranked_worktrees(repo)[k]).name
                    == repo.worktrees[i].name && ranked_worktrees(repo)[k].filesystem_path
                    == repo.worktrees[i].path && commit_time_of(
                    repo.local_branches,
                    repo.worktrees[i],
                ) == Some(ranked_worktrees(repo)[k].last_commit_time),
        forall|i: int|
            0 <= i < repo.worktrees.len() && commit_time_of(repo.local_branches, repo.worktrees[i])
                is Some ==> exists|k: int|
                0 <= k < ranked_worktrees(repo).len() && (#[trigger] ranked_worktrees(repo)[k]).name
                    == repo.worktrees[i].name,
    decreases repo.worktrees.len(),
{
    if repo.worktrees.len() > 0 {
        let shorter = RepoView { worktrees: repo.worktrees.drop_last(), ..repo };
        lemma_ranked_worktrees(shorter);
        let rest = ranked_worktrees(shorter);
        let all = ranked_worktrees(repo);
        let last = repo.worktrees.len() - 1;
        assert forall|k: int| 0 <= k < all.len() implies exists|i: int|
            0 <= i < repo.worktrees.len() && (#[trigger] all[k]).name == repo.worktrees[i].name
                && all[k].filesystem_path == repo.worktrees[i].path && commit_time_of(
                repo.local_branches,
                repo.worktrees[i],
            ) == Some(all[k].last_commit_time) by {
            if k < rest.len() {
                assert(all[k] == rest[k]);
                let i = choose|i: int|
                    0 <= i < shorter.worktrees.len() && rest[k].name == shorter.worktrees[i].name
                        && rest[k].filesystem_path == shorter.worktrees[i].path && commit_time_of(
                        shorter.local_branches,
                        shorter.worktrees[i],
                    ) == Some(rest[k].last_commit_time);
                assert(shorter.worktrees[i] == repo.worktrees[i]);
            } else {
                assert(all[k].name == repo.worktrees[last].name);
            }
        }
        assert forall|i: int|
            0 <= i < repo.worktrees.len() && commit_time_of(
                repo.local_branches,
                repo.worktrees[i],
            ) is Some implies exists|k: int|
            0 <= k < all.len() && (#[trigger] all[k]).name == repo.worktrees[i].name by {
            if i < last {
                assert(shorter.worktrees[i] == repo.worktrees[i]);
                let k = choose|k: int|
                    0 <= k < rest.len() && (#[trigger] rest[k]).name == shorter.worktrees[i].name;
                assert(all[k] == rest[k]);
            } else {
                assert(all[all.len() - 1].name == repo.worktrees[i].name);
            }
        }
    }
}

/// Where no two worktrees share a name, no two ranked worktrees do.
pub proof fn lemma_ranked_names_distinct(repo: RepoView)
    requires
        distinct(worktree_names(repo.worktrees)),
    ensures
        distinct(record_names(ranked_worktrees(repo))),
    decreases repo.worktrees.len(),
{
    if repo.worktrees.len() > 0 {
        let shorter = RepoView { worktrees: repo.worktrees.drop_last(), ..repo };
        let rest = ranked_worktrees(shorter);
        let all = ranked_worktrees(repo);
        let last = repo.worktrees.len() - 1;
        assert forall|i: int, j: int| 0 <= i < j < shorter.worktrees.len() implies worktree_names(
            shorter.worktrees,
        )[i] != worktree_names(shorter.worktrees)[j] by {
            assert(worktree_names(repo.worktrees)[i] != worktree_names(repo.worktrees)[j]);
        }
        lemma_ranked_names_distinct(shorter);
        lemma_ranked_worktrees(shorter);
        assert forall|i: int, j: int| 0 <= i < j < all.len() implies record_names(all)[i]
            != record_names(all)[j] by {
            if j < rest.len() {
                assert(record_names(rest)[i] != record_names(rest)[j]);
            } else {
                let k = choose|k: int|
                    0 <= k < shorter.worktrees.len() && (#[trigger] rest[i]).name
                        == shorter.worktrees[k].name && rest[i].filesystem_path
                        == shorter.worktrees[k].path && commit_time_of(
                        shorter.local_branches,
                        shorter.worktrees[k],
                    ) == Some(rest[i].last_commit_time);
                assert(worktree_names(repo.worktrees)[k] != worktree_names(repo.worktrees)[last]);
            }
        }
    }
}

/// The listing holds every ranked worktree once, a later commit before an
/// earlier one, worktrees with the same commit time in enumeration order.
pub proof fn lemma_listed_worktrees(repo: RepoView)
    ensures
        listed_worktrees(repo).len() == ranked_worktrees(repo).len(),
        is_recency_order(
            record_times(ranked_worktrees(repo)),
            recency_order(record_times(ranked_worktrees(repo))),
        ),
        forall|i: int, j: int|
            0 <= i < j < listed_worktrees(repo).len() ==> (#[trigger] listed_worktrees(
                repo,
            )[i]).last_commit_time >= (#[trigger] listed_worktrees(repo)[j]).last_commit_time,
{
    let ranked = ranked_worktrees(repo);
    let times = record_times(ranked);
    let order = recency_order(times);
    lemma_recency_order(times);
    assert forall|i: int, j: int| 0 <= i < j < listed_worktrees(repo).len() implies (
    #[trigger] listed_worktrees(repo)[i]).last_commit_time >= (#[trigger] listed_worktrees(
        repo,
    )[j]).last_commit_time by {
        assert(precedes(times, order[i], order[j]));
    }
}

/// The position of the first worktree with the given name.
pub(crate) fn find_worktree(list: &Vec<WorktreeEntry>, name: &String) -> (r: Option<usize>)
    ensures
        match r {
            Some(i) => i < list.len() && first_index(worktree_names(list.deep_view()), name@)
                == Some(i as int),
            None => first_index(worktree_names(list.deep_view()), name@) is None,
        },
{
    let ghost names = worktree_names(list.deep_view());
    let mut i: usize = 0;
    while i < list.len()
        invariant
            i <= list.len(),
            names == worktree_names(list.deep_view()),
            forall|j: int| 0 <= j < i ==> names[j] != name@,
        decreases list.len() - i,
    {
        if list[i].name == *name {
            proof {
                assert(is_first_at(names, name@, i as int));
                lemma_first_index(names, name@);
            }
            return Some(i);
        }
        i = i + 1;
    }
    proof {
        lemma_first_index(names, name@);
    }
    None
}

/// The position of the first worktree that has the given branch checked out.
pub(crate) fn find_worktree_on(list: &Vec<WorktreeEntry>, branch: &String) -> (r: Option<usize>)
    ensures
        match r {
            Some(i) => i < list.len() && first_index(
                worktree_branches(list.deep_view()),
                Some(branch@),
            ) == Some(i as int),
            None => first_index(worktree_branches(list.deep_view()), Some(branch@)) is None,
        },
{
    let ghost branches = worktree_branches(list.deep_view());
    let mut i: usize = 0;
    while i < list.len()
        invariant
            i <= list.len(),
            branches == worktree_branches(list.deep_view()),
            forall|j: int| 0 <= j < i ==> branches[j] != Some(branch@),
        decreases list.len() - i,
    {
        let hit = match &list[i].branch {
            Some(b) => *b == *branch,
            None => false,
        };
        if hit {
            proof {
                assert(is_first_at(branches, Some(branch@), i as int));
                lemma_first_index(branches, Some(branch@));
            }
            return Some(i);
        }
        i = i + 1;
    }
    proof {
        lemma_first_index(branches, Some(branch@));
    }
    None
}

fn entry_commit_time(repo: &RepoSnapshot, w: &WorktreeEntry) -> (r: Option<i64>)
    ensures
        r == commit_time_of(repo@.local_branches, w@),
{
    match &w.branch {
        Some(b) => match find_branch(&repo.local_branches, b) {
            Some(i) => Some(repo.local_branches[i].commit_time),
            None => None,
        },
        None => None,
    }
}

/// The branch that is checked out in the worktree of the given name.
pub fn get_worktree_branch(repo: &RepoSnapshot, worktree_name: &str) -> (r: Result<
    String,
    EngineError,
>)
    ensures
        match worktree_named(repo@, worktree_name@) {
            Some(w) => match w.branch {
                Some(b) => r is Ok && r->Ok_0@ == b,
                None => r == Err::<String, EngineError>(EngineError::BranchNameUnavailable),
            },
            None => r == Err::<String, EngineError>(EngineError::WorktreeNotFound),
        },
{
    let name = worktree_name.to_owned();
    match find_worktree(&repo.worktrees, &name) {
        Some(i) => match &repo.worktrees[i].branch {
            Some(b) => Ok(b.clone()),
            None => Err(EngineError::BranchNameUnavailable),
        },
        None => Err(EngineError::WorktreeNotFound),
    }
}

/// The branch that is checked out in the worktree of the given name.
pub fn get_worktree_branch_name(repo: &RepoSnapshot, worktree_name: &str) -> (r: Result<
    String,
    EngineError,
>)
    ensures
        match worktree_named(repo@, worktree_name@) {
            Some(w) => match w.branch {
                Some(b) => r is Ok && r->Ok_0@ == b,
                None => r == Err::<String, EngineError>(EngineError::BranchNameUnavailable),
            },
            None => r == Err::<String, EngineError>(EngineError::WorktreeNotFound),
        },
{
    get_worktree_branch(repo, worktree_name)
}

/// The time of the last commit on the branch of the worktree of the given
/// name, where that branch is a local branch.
pub fn get_worktree_commit_time(repo: &RepoSnapshot, worktree_name: &str) -> (r: Option<i64>)
    ensures
        r == match worktree_named(repo@, worktree_name@) {
            Some(w) => commit_time_of(repo@.local_branches, w),
            None => None,
        },
{
    let name = worktree_name.to_owned();
    match find_worktree(&repo.worktrees, &name) {
        Some(i) => entry_commit_time(repo, &repo.worktrees[i]),
        None => None,
    }
}

/// Lists the worktrees that can be ranked, most recently committed first.
/// A worktree whose branch is not a local branch is left out of the listing;
/// it is still found by its name and by its branch.
pub fn list_worktrees(repo: &RepoSnapshot) -> (r: Vec<WorktreeRecord>)
    ensures
        r.deep_view() == listed_worktrees(repo@),
{
    let mut ranked: Vec<WorktreeRecord> = Vec::new();
    let mut times: Vec<i64> = Vec::new();
    let mut i: usize = 0;
    while i < repo.worktrees.len()
        invariant
            i <= repo.worktrees.len(),
            ranked.deep_view() =~= ranked_worktrees(
                RepoView { worktrees: repo@.worktrees.take(i as int), ..repo@ },
            ),
            times@ =~= record_times(ranked.deep_view()),
        decreases repo.worktrees.len() - i,
    {
        let w = &repo.worktrees[i];
        let ghost before = ranked.deep_view();
        proof {
            let next = RepoView { worktrees: repo@.worktrees.take(i as int + 1), ..repo@ };
            assert(next.worktrees.drop_last() =~= repo@.worktrees.take(i as int));
            assert(next.worktrees.last() == w@);
        }
        match entry_commit_time(repo, w) {
            Some(t) => {
                let rec = WorktreeRecord {
                    name: w.name.clone(),
                    filesystem_path: w.path.clone(),
                    last_commit_time: t,
                };
                ranked.push(rec);
                times.push(t);
                assert(ranked.deep_view() =~= before.push(
                    WorktreeRecordView {
                        name: w@.name,
                        filesystem_path: w@.path,
                        last_commit_time: t,
                    },
                ));
            },
            None => {},
        }
        i = i + 1;
    }
    assert(repo@.worktrees.take(repo.worktrees.len() as int) =~= repo@.worktrees);
    let order = recency_positions(&times);
    let ghost positions = order@.map_values(|p: usize| p as int);
    let mut out: Vec<WorktreeRecord> = Vec::new();
    let mut k: usize = 0;
    while k < order.len()
        invariant
            k <= order.len(),
            order.len() == ranked.len(),
            ranked.deep_view() == ranked_worktrees(repo@),
            positions == order@.map_values(|p: usize| p as int),
            positions == recency_order(record_times(ranked.deep_view())),
            is_recency_order(record_times(ranked.deep_view()), positions),
            out.deep_view() =~= listed_worktrees(repo@).take(k as int),
        decreases order.len() - k,
    {
        let p = order[k];
        assert(0 <= positions[k as int] < ranked.len());
        let src = &ranked[p];
        let ghost before = out.deep_view();
        let rec = WorktreeRecord {
            name: src.name.clone(),
            filesystem_path: src.filesystem_path.clone(),
            last_commit_time: src.last_commit_time,
        };
        assert(rec@ == ranked.deep_view()[p as int]);
        out.push(rec);
        assert(out.deep_view() =~= before.push(rec@));
        k = k + 1;
    }
    assert(out.deep_view() =~= listed_worktrees(repo@));
    out
}

/// The names of the worktrees that can be ranked, most recently committed
/// first.
pub fn get_worktree_names(repo: &RepoSnapshot) -> (r: Vec<String>)
    ensures
        r.deep_view() == record_names(listed_worktrees(repo@)),
{
    let records = list_worktrees(repo);
    let mut out: Vec<String> = Vec::new();
    let mut i: usize = 0;
    while i < records.len()
        invariant
            i <= records.len(),
            out.deep_view() =~= record_names(records.deep_view()).take(i as int),
        decreases records.len() - i,
    {
        let ghost before = out.deep_view();
        let name = records[i].name.clone();
        out.push(name);
        assert(out.deep_view() =~= before.push(records[i as int].name@));
        i = i + 1;
    }
    assert(out.deep_view() =~= record_names(records.deep_view()));
    out
}

/// The directory of the worktree that a workspace name stands for: the first
/// worktree whose name is the normalized name.
pub fn get_worktree_path_by_name(repo: &RepoSnapshot, target_worktree_name: &str) -> (r: Result<
    String,
    EngineError,
>)
    ensures
        match worktree_named(repo@, normalized(target_worktree_name@)) {
            Some(w) => r is Ok && r->Ok_0@ == w.path,
            None => r == Err::<String, EngineError>(EngineError::WorktreeNotFound),
        },
{
    let name = normalize_workspace_name(target_worktree_name);
    match find_worktree(&repo.worktrees, &name) {
        Some(i) => Ok(repo.worktrees[i].path.clone()),
        None => Err(EngineError::WorktreeNotFound),
    }
}

/// The name of the first worktree that has the branch checked out.
pub fn get_worktree_by_branch_name(repo: &RepoSnapshot, branch_name: &str) -> (r: Result<
    String,
    EngineError,
>)
    ensures
        match worktree_on_branch(repo@, branch_name@) {
            Some(w) => r is Ok && r->Ok_0@ == w.name,
            None => r == Err::<String, EngineError>(EngineError::NoWorktreeForBranch),
        },
{
    let branch = branch_name.to_owned();
    match find_worktree_on(&repo.worktrees, &branch) {
        Some(i) => Ok(repo.worktrees[i].name.clone()),
        None => Err(EngineError::NoWorktreeForBranch),
    }
}

/// Tells whether some worktree has the branch checked out.
pub fn worktree_exists_by_branch_name(repo: &RepoSnapshot, branch_name: &str) -> (b: bool)
    ensures
        b == worktree_branches(repo@.worktrees).contains(Some(branch_name@)),
        b == worktree_on_branch(repo@, branch_name@) is Some,
{
    let branch = branch_name.to_owned();
    let found = find_worktree_on(&repo.worktrees, &branch);
    proof {
        lemma_first_index(worktree_branches(repo@.worktrees), Some(branch@));
    }
    found.is_some()
}

/// Tells whether a worktree has exactly this name.
pub fn worktree_exists_by_name(repo: &RepoSnapshot, worktree_name: &str) -> (b: bool)
    ensures
        b == worktree_names(repo@.worktrees).contains(worktree_name@),
        b == worktree_named(repo@, worktree_name@) is Some,
{
    let name = worktree_name.to_owned();
    let found = find_worktree(&repo.worktrees, &name);
    proof {
        lemma_first_index(worktree_names(repo@.worktrees), name@);
    }
    found.is_some()
}

/// The first worktree with exactly this name.
pub fn get_worktree_by_name(repo: &RepoSnapshot, worktree_name: &str) -> (r: Result<
    WorktreeEntry,
    EngineError,
>)
    ensures
        match worktree_named(repo@, worktree_name@) {
            Some(w) => r is Ok && r->Ok_0@ == w,
            None => r is Err && r->Err_0 == EngineError::WorktreeNotFound,
        },
{
    let name = worktree_name.to_owned();
    match find_worktree(&repo.worktrees, &name) {
        Some(i) => {
            let w = &repo.worktrees[i];
            Ok(
                WorktreeEntry {
                    name: w.name.clone(),
                    path: w.path.clone(),
                    branch: copy_opt(&w.branch),
                },
            )
        },
        None => Err(EngineError::WorktreeNotFound),
    }
}

} // verus!
