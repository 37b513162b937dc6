//! The branch registry: listing branches, most recent first, and finding one
//! by name.

use vstd::prelude::*;
use crate::order::{first_index, is_first_at, is_recency_order, lemma_first_index,
    lemma_recency_order, pick, precedes, recency_order, recency_positions};
use crate::repo::{branch_names, branch_times, BranchInfo, BranchInfoView, BranchKind,
    BranchRecord, BranchView, RepoSnapshot};

verus! {

/// The prefix under which the branches of the remote are listed.
pub open spec fn remote_prefix() -> Seq<char> {
    "origin/"@
}

/// The name and head of a listed branch.
pub open spec fn info_of(b: BranchView) -> BranchInfoView {
    BranchInfoView { name: b.name, head: b.head }
}

/// The names and heads of a list of branches.
pub open spec fn infos(branches: Seq<BranchView>) -> Seq<BranchInfoView> {
    Seq::new(branches.len(), |i: int| info_of(branches[i]))
}

/// The branches in the order in which they are offered: by descending commit
/// time, branches with the same time in enumeration order.
pub open spec fn listed_branches(branches: Seq<BranchView>) -> Seq<BranchInfoView> {
    pick(infos(branches), recency_order(branch_times(branches)))
}

/// The name under which a branch of the given kind is looked up.
pub open spec fn lookup_name(name: Seq<char>, kind: BranchKind) -> Seq<char> {
    match kind {
        BranchKind::Local => name,
        BranchKind::Remote => remote_prefix() + name,
    }
}

/// The branch that a name resolves to: the first whose listed name is the
/// looked-up name, under the name that was asked for.
pub open spec fn resolved_branch(branches: Seq<BranchView>, name: Seq<char>, kind: BranchKind)
    -> Option<BranchInfoView> {
    match first_index(branch_names(branches), lookup_name(name, kind)) {
        Some(i) => Some(BranchInfoView { name: name, head: branches[i].head }),
        None => None,
    }
}

/// The listing is a rearrangement of the enumeration: it holds every branch
/// once, a later commit comes before an earlier one, and two branches with
/// the same commit time keep the order in which they were enumerated.
pub proof fn lemma_listed_branches(branches: Seq<BranchView>)
    ensures
        listed_branches(branches).len() == branches.len(),
        is_recency_order(branch_times(branches), recency_order(branch_times(branches))),
        forall|i: int|
            0 <= i < branches.len() ==> #[trigger] listed_branches(branches)[i] == info_of(
                branches[recency_order(branch_times(branches))[i]],
            ),
        forall|i: int, j: int|
            0 <= i < j < branches.len() ==> {
                let a = #[trigger] recency_order(branch_times(branches))[i];
                let b = #[trigger] recency_order(branch_times(branches))[j];
                branches[a].commit_time > branches[b].commit_time || (branches[a].commit_time
                    == branches[b].commit_time && a < b)
            },
{
    let times = branch_times(branches);
    let order = recency_order(times);
    lemma_recency_order(times);
    assert forall|i: int, j: int| 0 <= i < j < branches.len() implies {
        let a = #[trigger] order[i];
        let b = #[trigger] order[j];
        branches[a].commit_time > branches[b].commit_time || (branches[a].commit_time
            == branches[b].commit_time && a < b)
    } by {
        assert(precedes(times, order[i], order[j]));
    }
}

/// The position of the first branch with the given listed name.
pub(crate) fn find_branch(list: &Vec<BranchRecord>, name: &String) -> (r: Option<usize>)
    ensures
        match r {
            Some(i) => i < list.len() && first_index(branch_names(list.deep_view()), name@) == Some(
                i as int,
            ),
            None => first_index(branch_names(list.deep_view()), name@) is None,
        },
{
    let ghost names = branch_names(list.deep_view());
    let mut i: usize = 0;
    while i < list.len()
        invariant
            i <= list.len(),
            names == branch_names(list.deep_view()),
            forall|j: int| 0 <= j < i ==> names[j] != name@,
        decreases list.len() - i,
    {
        if list[i].name == *name {
            proof {
                assert(is_first_at(names, name@, i as int));
                lemma_first_index(names, name@);
            }
            return Some(i);
        }
        i = i + 1;
    }
    proof {
        lemma_first_index(names, name@);
    }
    None
}

fn branch_list(repo: &RepoSnapshot, kind: BranchKind) -> (list: &Vec<BranchRecord>)
    ensures
        list.deep_view() == repo@.branches(kind),
{
    match kind {
        BranchKind::Local => &repo.local_branches,
        BranchKind::Remote => &repo.remote_branches,
    }
}

/// Lists the branches of one kind, most recently committed first. Branches
/// with the same commit time stay in enumeration order.
pub fn get_branches(repo: &RepoSnapshot, kind: BranchKind) -> (r: Vec<BranchInfo>)
    ensures
        r.deep_view() == listed_branches(repo@.branches(kind)),
{
    let list = branch_list(repo, kind);
    let mut times: Vec<i64> = Vec::new();
    let mut i: usize = 0;
    while i < list.len()
        invariant
            i <= list.len(),
            times@ =~= branch_times(list.deep_view()).take(i as int),
        decreases list.len() - i,
    {
        times.push(list[i].commit_time);
        i = i + 1;
    }
    assert(times@ =~= branch_times(list.deep_view()));
    let order = recency_positions(&times);
    let ghost positions = order@.map_values(|p: usize| p as int);
    let mut out: Vec<BranchInfo> = Vec::new();
    let mut k: usize = 0;
    while k < order.len()
        invariant
            k <= order.len(),
            order.len() == list.len(),
            positions == order@.map_values(|p: usize| p as int),
            positions == recency_order(branch_times(list.deep_view())),
            is_recency_order(branch_times(list.deep_view()), positions),
            out.deep_view() =~= listed_branches(list.deep_view()).take(k as int),
        decreases order.len() - k,
    {
        let p = order[k];
        assert(0 <= positions[k as int] < list.len());
        let b = &list[p];
        let ghost before = out.deep_view();
        let info = BranchInfo { name: b.name.clone(), head: b.head.clone() };
        assert(info@ == info_of(list.deep_view()[p as int]));
        out.push(info);
        assert(out.deep_view() =~= before.push(info@));
        k = k + 1;
    }
    assert(out.deep_view() =~= listed_branches(list.deep_view()));
    out
}

/// Tells whether a branch is listed under exactly this name.
pub fn branch_exists_by_name(repo: &RepoSnapshot, branch_name: &str, kind: BranchKind) -> (b: bool)
    ensures
        b == branch_names(repo@.branches(kind)).contains(branch_name@),
{
    let list = branch_list(repo, kind);
    let name = branch_name.to_owned();
    let found = find_branch(list, &name);
    proof {
        lemma_first_index(branch_names(list.deep_view()), name@);
    }
    found.is_some()
}

/// Tells whether a remote branch is listed under exactly this name.
pub fn _check_remote_branch_exist(repo: &RepoSnapshot, branch_name: &String) -> (b: bool)
    ensures
        b == branch_names(repo@.remote_branches).contains(branch_name@),
{
    let found = find_branch(&repo.remote_branches, branch_name);
    proof {
        lemma_first_index(branch_names(repo.remote_branches.deep_view()), branch_name@);
    }
    found.is_some()
}

/// The name under which a branch of the given kind is looked up.
pub(crate) fn comparison_name(branch_name: &str, kind: BranchKind) -> (s: String)
    ensures
        s@ == lookup_name(branch_name@, kind),
{
    match kind {
        BranchKind::Local => branch_name.to_owned(),
        BranchKind::Remote => {
            let mut s = String::from_str("origin/");
            s.append(branch_name);
            s
        },
    }
}

/// Resolves a name to a branch of the given kind. A remote branch is looked
/// up under `origin/` followed by the name; the result carries the name that
/// was asked for and the head of the branch that was found.
pub fn get_branch(repo: &RepoSnapshot, branch_name: &str, kind: BranchKind) -> (r: Option<
    BranchInfo,
>)
    ensures
        r.deep_view() == resolved_branch(repo@.branches(kind), branch_name@, kind),
{
    let list = branch_list(repo, kind);
    let wanted = comparison_name(branch_name, kind);
    match find_branch(list, &wanted) {
        Some(i) => Some(BranchInfo { name: branch_name.to_owned(), head: list[i].head.clone() }),
        None => None,
    }
}

} // verus!
