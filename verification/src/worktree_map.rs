//! The ordered map from worktree names to the branches checked out in them.

use vstd::prelude::*;
use indexmap::IndexMap;
use crate::order::{first_index, lemma_first_index, lemma_recency_order, precedes, recency_order};
use crate::repo::{distinct, worktree_names, RepoSnapshot, RepoView};
use crate::worktree::{commit_time_of, get_worktree_branch, get_worktree_names,
    lemma_ranked_names_distinct, lemma_ranked_worktrees, listed_worktrees, ranked_worktrees,
    record_names, record_times, worktree_named};

verus! {

/// The insertion-ordered hash map of the `indexmap` crate. Its inside is not
/// visible here; `map_entries` names what it holds.
#[verifier::external_type_specification]
#[verifier::external_body]
#[verifier::reject_recursive_types(K)]
#[verifier::reject_recursive_types(V)]
#[verifier::reject_recursive_types(S)]
pub struct ExIndexMap<K, V, S>(IndexMap<K, V, S>);

/// The key-value pairs of a map, in the map's order.
pub uninterp spec fn map_entries(m: IndexMap<String, String>) -> Seq<(Seq<char>, Seq<char>)>;

/// The keys of a list of pairs.
pub open spec fn keys_of(entries: Seq<(Seq<char>, Seq<char>)>) -> Seq<Seq<char>> {
    Seq::new(entries.len(), |i: int| entries[i].0)
}

/// The pairs after a key is set to a value: a key that is present keeps its
/// place and takes the new value, a new key goes last.
pub open spec fn inserted(entries: Seq<(Seq<char>, Seq<char>)>, key: Seq<char>, value: Seq<char>)
    -> Seq<(Seq<char>, Seq<char>)> {
    match first_index(keys_of(entries), key) {
        Some(i) => entries.update(i, (key, value)),
        None => entries.push((key, value)),
    }
}

/// The pairs as plain sequences.
pub open spec fn pair_views(pairs: Seq<(String, String)>) -> Seq<(Seq<char>, Seq<char>)> {
    Seq::new(pairs.len(), |i: int| (pairs[i].0@, pairs[i].1@))
}

/// An empty map.
///
/// Trusted: this is `IndexMap::new`, which creates a map that holds nothing.
#[verifier::external_body]
pub(crate) fn map_new() -> (m: IndexMap<String, String>)
    ensures
        map_entries(m) == Seq::<(Seq<char>, Seq<char>)>::empty(),
{
    IndexMap::new()
}

/// Sets a key to a value.
///
/// Trusted: this is `IndexMap::insert`. Where an equal key is in the map, it
/// keeps its place in the order and its value is replaced; otherwise the pair
/// is put last. Nothing else changes.
#[verifier::external_body]
pub(crate) fn map_insert(m: &mut IndexMap<String, String>, key: String, value: String)
    ensures
        map_entries(*final(m)) == inserted(map_entries(*old(m)), key@, value@),
{
    m.insert(key, value);
}

/// The pairs of a map, in the map's order.
///
/// Trusted: this is `IndexMap::iter`, which yields the key-value pairs in
/// their order; each pair is copied out.
#[verifier::external_body]
pub(crate) fn map_pairs(m: &IndexMap<String, String>) -> (pairs: Vec<(String, String)>)
    ensures
        pair_views(pairs@) == map_entries(*m),
{
    m.iter().map(|(k, v)| (k.clone(), v.clone())).collect()
}

/// The map that comes of the first `k` listed worktree names: each name whose
/// worktree has a readable branch is set to that branch.
pub open spec fn branch_entries_upto(repo: RepoView, names: Seq<Seq<char>>, k: nat) -> Seq<
    (Seq<char>, Seq<char>),
>
    decreases k,
{
    if k == 0 {
        Seq::empty()
    } else {
        let rest = branch_entries_upto(repo, names, (k - 1) as nat);
        match worktree_named(repo, names[k - 1]) {
            Some(w) => match w.branch {
                Some(b) => inserted(rest, names[k - 1], b),
                None => rest,
            },
            None => rest,
        }
    }
}

/// The worktree names in listing order, each with the branch that is checked
/// out in the worktree.
pub open spec fn worktree_branch_entries(repo: RepoView) -> Seq<(Seq<char>, Seq<char>)> {
    let names = record_names(listed_worktrees(repo));
    branch_entries_upto(repo, names, names.len())
}

/// Every name in the map is the name of a worktree of the repository.
pub proof fn lemma_mapped_worktrees_exist(repo: RepoView)
    ensures
        forall|i: int|
            0 <= i < worktree_branch_entries(repo).len() ==> worktree_named(
                repo,
                (#[trigger] worktree_branch_entries(repo)[i]).0,
            ) is Some,
{
    let names = record_names(listed_worktrees(repo));
    lemma_mapped_upto(repo, names, names.len());
}

proof fn lemma_mapped_upto(repo: RepoView, names: Seq<Seq<char>>, k: nat)
    requires
        k <= names.len(),
    ensures
        forall|i: int|
            0 <= i < branch_entries_upto(repo, names, k).len() ==> worktree_named(
                repo,
                (#[trigger] branch_entries_upto(repo, names, k)[i]).0,
            ) is Some,
    decreases k,
{
    if k > 0 {
        lemma_mapped_upto(repo, names, (k - 1) as nat);
        let rest = branch_entries_upto(repo, names, (k - 1) as nat);
        let all = branch_entries_upto(repo, names, k);
        let name = names[k - 1];
        lemma_first_index(keys_of(rest), name);
        assert forall|i: int| 0 <= i < all.len() implies worktree_named(
            repo,
            (#[trigger] all[i]).0,
        ) is Some by {
            if all != rest {
                let w = worktree_named(repo, name);
                match first_index(keys_of(rest), name) {
                    Some(j) => {
                        if i != j {
                            assert(all[i] == rest[i]);
                        }
                    },
                    None => {
                        if i < rest.len() {
                            assert(all[i] == rest[i]);
                        }
                    },
                }
            }
        }
    }
}

/// Where no two worktrees share a name, the map holds one pair for each
/// listed worktree, in listing order: the name of the worktree and the
/// branch that is checked out in it.
pub proof fn lemma_worktree_branch_entries(repo: RepoView)
    requires
        distinct(worktree_names(repo.worktrees)),
    ensures
        worktree_branch_entries(repo).len() == listed_worktrees(repo).len(),
        forall|i: int|
            0 <= i < listed_worktrees(repo).len() ==> {
                let w = worktree_named(repo, listed_worktrees(repo)[i].name);
                &&& (#[trigger] worktree_branch_entries(repo)[i]).0 == listed_worktrees(
                    repo,
                )[i].name
                &&& w is Some
                &&& w->Some_0.branch == Some(worktree_branch_entries(repo)[i].1)
            },
{
    let listed = listed_worktrees(repo);
    let names = record_names(listed);
    lemma_listed_names(repo);
    lemma_entries_upto(repo, names, names.len());
}

/// Where no two worktrees share a name, each listed worktree is found by
/// its name: it is the worktree that the listing took directory and commit
/// time from, and a branch is checked out in it.
pub proof fn lemma_listed_paths(repo: RepoView)
    requires
        distinct(worktree_names(repo.worktrees)),
    ensures
        forall|i: int|
            0 <= i < listed_worktrees(repo).len() ==> {
                let w = worktree_named(repo, (#[trigger] listed_worktrees(repo)[i]).name);
                &&& w is Some
                &&& w->Some_0.path == listed_worktrees(repo)[i].filesystem_path
                &&& w->Some_0.branch is Some
            },
{
    let ranked = ranked_worktrees(repo);
    let times = record_times(ranked);
    let order = recency_order(times);
    let listed = listed_worktrees(repo);
    lemma_recency_order(times);
    lemma_ranked_worktrees(repo);
    assert forall|i: int| 0 <= i < listed.len() implies {
        let w = worktree_named(repo, (#[trigger] listed[i]).name);
        &&& w is Some
        &&& w->Some_0.path == listed[i].filesystem_path
        &&& w->Some_0.branch is Some
    } by {
        let k = order[i];
        assert(0 <= k < ranked.len());
        assert(listed[i] == ranked[k]);
        let at = choose|at: int|
            0 <= at < repo.worktrees.len() && (#[trigger] ranked[k]).name == repo.worktrees[at].name
                && ranked[k].filesystem_path == repo.worktrees[at].path && commit_time_of(
                repo.local_branches,
                repo.worktrees[at],
            ) == Some(ranked[k].last_commit_time);
        let all = worktree_names(repo.worktrees);
        lemma_first_index(all, listed[i].name);
        assert(all[at] == listed[i].name);
        let found = first_index(all, listed[i].name)->Some_0;
        if found != at {
            if found < at {
                assert(all[found] != all[at]);
            } else {
                assert(all[at] != all[found]);
            }
        }
    }
}

proof fn lemma_listed_names(repo: RepoView)
    requires
        distinct(worktree_names(repo.worktrees)),
    ensures
        distinct(record_names(listed_worktrees(repo))),
        forall|i: int|
            0 <= i < listed_worktrees(repo).len() ==> {
                let w = worktree_named(repo, #[trigger] record_names(listed_worktrees(repo))[i]);
                w is Some && w->Some_0.branch is Some
            },
{
    let ranked = ranked_worktrees(repo);
    let times = record_times(ranked);
    let order = recency_order(times);
    let listed = listed_worktrees(repo);
    let names = record_names(listed);
    lemma_recency_order(times);
    lemma_ranked_names_distinct(repo);
    assert forall|i: int, j: int| 0 <= i < j < names.len() implies names[i] != names[j] by {
        assert(precedes(times, order[i], order[j]));
        let a = order[i];
        let b = order[j];
        assert(a != b);
        if a < b {
            assert(record_names(ranked)[a] != record_names(ranked)[b]);
        } else {
            assert(record_names(ranked)[b] != record_names(ranked)[a]);
        }
    }
    lemma_listed_paths(repo);
    assert forall|i: int| 0 <= i < listed.len() implies {
        let w = worktree_named(repo, #[trigger] names[i]);
        w is Some && w->Some_0.branch is Some
    } by {
        assert(names[i] == listed[i].name);
    }
}

proof fn lemma_entries_upto(repo: RepoView, names: Seq<Seq<char>>, k: nat)
    requires
        k <= names.len(),
        distinct(names),
        forall|i: int|
            0 <= i < names.len() ==> {
                let w = worktree_named(repo, #[trigger] names[i]);
                w is Some && w->Some_0.branch is Some
            },
    ensures
        branch_entries_upto(repo, names, k).len() == k,
        forall|i: int|
            0 <= i < k ==> {
                let w = worktree_named(repo, names[i]);
                &&& (#[trigger] branch_entries_upto(repo, names, k)[i]).0 == names[i]
                &&& w->Some_0.branch == Some(branch_entries_upto(repo, names, k)[i].1)
            },
    decreases k,
{
    if k > 0 {
        lemma_entries_upto(repo, names, (k - 1) as nat);
        let rest = branch_entries_upto(repo, names, (k - 1) as nat);
        let name = names[k - 1];
        let w = worktree_named(repo, name);
        assert(w is Some && w->Some_0.branch is Some);
        lemma_first_index(keys_of(rest), name);
        assert forall|j: int| 0 <= j < rest.len() implies keys_of(rest)[j] != name by {
            assert(rest[j].0 == names[j]);
            assert(names[j] != names[k - 1]);
        }
        assert(branch_entries_upto(repo, names, k) == rest.push((name, w->Some_0.branch->Some_0)));
    }
}

/// Maps each listed worktree to the branch that is checked out in it, in
/// listing order.
pub fn get_worktree_branches(repo: &RepoSnapshot) -> (m: IndexMap<String, String>)
    ensures
        map_entries(m) == worktree_branch_entries(repo@),
{
    let names = get_worktree_names(repo);
    let mut map = map_new();
    let mut k: usize = 0;
    while k < names.len()
        invariant
            k <= names.len(),
            names.deep_view() == record_names(listed_worktrees(repo@)),
            map_entries(map) == branch_entries_upto(repo@, names.deep_view(), k as nat),
        decreases names.len() - k,
    {
        let name = &names[k];
        assert(names.deep_view()[k as int] == name@);
        match get_worktree_branch(repo, name.as_str()) {
            Ok(branch) => {
                map_insert(&mut map, name.clone(), branch);
            },
            Err(_) => {},
        }
        k = k + 1;
    }
    map
}

} // verus!
