//! Workspace resolution for git repositories that are navigated through
//! branches and worktrees.
//!
//! The crate works on a [`repo::RepoSnapshot`], a plain-value picture of a
//! repository, and decides what a caller has to do next: which workspace a
//! name resolves to, whether one has to be created, and which shell directive
//! to emit. Reading the repository, fetching, showing the picker and talking
//! to the code-review service are the caller's part; what they bring back is
//! handed in as plain values.
//!
//! - [`repo`] holds the snapshot and the classification of a repository.
//! - [`branch`], [`worktree`] and [`worktree_map`] are the registries: they
//!   list branches and worktrees, most recent first, and find them by name.
//! - [`selector`] says what the picker is asked and how its answer is read.
//! - [`navigate`] resolves a request to switch to a workspace.
//! - [`creator`] resolves a request for a new workspace, and [`fetch`] and
//!   [`paths`] say what is fetched first and where worktrees stand.
//! - [`github`], [`pull_requests`] and [`sync`] make workspaces for the pull
//!   requests of the hosted repository.
//! - [`error`] lists what can go wrong; [`names`], [`order`] and [`text`]
//!   hold the rules on names, on ordering and on text.

pub mod text;
pub mod names;
pub mod order;
pub mod error;
pub mod repo;
pub mod branch;
pub mod worktree;
pub mod worktree_map;
pub mod selector;
pub mod navigate;
pub mod paths;
pub mod creator;
pub mod fetch;
pub mod github;
pub mod pull_requests;
pub mod sync;
