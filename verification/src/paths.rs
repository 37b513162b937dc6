//! Where a repository keeps its worktrees.

use vstd::prelude::*;
use crate::error::{viewed, EngineError};
use crate::repo::{RepoSnapshot, RepoView};

verus! {

/// The path without its last component, as `Path::parent` of the standard
/// library gives it for the platform the crate is built for.
pub uninterp spec fn path_parent(path: Seq<char>) -> Option<Seq<char>>;

/// The path `child` below `base`, as `Path::join` of the standard library
/// gives it for the platform the crate is built for.
pub uninterp spec fn path_join(base: Seq<char>, child: Seq<char>) -> Seq<char>;

/// The directory above a path.
///
/// Trusted: this is `Path::parent` of the standard library, whose result is
/// a function of the path alone. Nothing more is claimed of it.
#[verifier::external_body]
pub(crate) fn parent_dir(path: &str) -> (r: Option<String>)
    ensures
        r.deep_view() == path_parent(path@),
{
    std::path::Path::new(path).parent().map(|p| p.to_string_lossy().into_owned())
}

/// The path of `child` inside `base`.
///
/// Trusted: this is `Path::join` of the standard library, whose result is a
/// function of the two paths alone. Nothing more is claimed of it.
#[verifier::external_body]
pub(crate) fn join_path(base: &str, child: &str) -> (r: String)
    ensures
        r@ == path_join(base@, child@),
{
    std::path::Path::new(base).join(child).to_string_lossy().into_owned()
}

/// The directory three levels above a path.
pub open spec fn third_parent(path: Seq<char>) -> Option<Seq<char>> {
    match path_parent(path) {
        Some(a) => match path_parent(a) {
            Some(b) => path_parent(b),
            None => None,
        },
        None => None,
    }
}

/// The directory in which the worktrees of a repository stand: for a
/// worktree three levels above its own data, else the repository's data
/// directory itself.
pub open spec fn root_repo_path(repo: RepoView) -> Result<Seq<char>, EngineError> {
    if repo.is_worktree {
        match third_parent(repo.git_dir) {
            Some(p) => Ok(p),
            None => Err(EngineError::RootPathUnavailable),
        }
    } else {
        Ok(repo.git_dir)
    }
}

/// The directory three levels above the data directory of a worktree, past
/// the worktree's own entry and the directories that hold it.
pub fn get_worktree_root_path(repo: &RepoSnapshot) -> (r: Result<String, EngineError>)
    ensures
        viewed(r) == match third_parent(repo@.git_dir) {
            Some(p) => Ok::<Seq<char>, EngineError>(p),
            None => Err(EngineError::RootPathUnavailable),
        },
{
    match parent_dir(repo.git_dir.as_str()) {
        Some(a) => match parent_dir(a.as_str()) {
            Some(b) => match parent_dir(b.as_str()) {
                Some(c) => Ok(c),
                None => Err(EngineError::RootPathUnavailable),
            },
            None => Err(EngineError::RootPathUnavailable),
        },
        None => Err(EngineError::RootPathUnavailable),
    }
}

/// The directory in which the worktrees of the repository stand.
pub fn get_root_repo_path(repo: &RepoSnapshot) -> (r: Result<String, EngineError>)
    ensures
        viewed(r) == root_repo_path(repo@),
{
    if repo.is_worktree {
        return get_worktree_root_path(repo);
    }
    Ok(repo.git_dir.clone())
}

} // verus!
