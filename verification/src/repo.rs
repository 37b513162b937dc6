//! The repository as the engine sees it: plain values that a caller reads
//! from the version-control storage and hands in.

use vstd::prelude::*;
use crate::names::has_separator;

verus! {

/// How a repository is laid out.
#[derive(Debug, Clone, Copy, PartialEq, Eq, Structural)]
pub enum Topology {
    /// A repository without a working directory of its own.
    Bare,
    /// A working directory that is attached to another repository.
    Worktree,
    /// An ordinary checkout.
    Regular,
}

/// Which branches are meant.
#[derive(Debug, Clone, Copy, PartialEq, Eq, Structural)]
pub enum BranchKind {
    Local,
    Remote,
}

/// Whether a workspace was there already or has just been made.
#[derive(Debug, Clone, Copy, PartialEq, Eq, Structural)]
pub enum AddKind {
    Existed,
    Added,
}

/// A branch at one point in time.
#[derive(Debug, Clone, PartialEq, Eq)]
pub struct BranchInfo {
    pub name: String,
    pub head: String,
}

/// What a [`BranchInfo`] holds, as mathematical values.
pub struct BranchInfoView {
    pub name: Seq<char>,
    pub head: Seq<char>,
}

impl View for BranchInfo {
    type V = BranchInfoView;

    open spec fn view(&self) -> BranchInfoView {
        BranchInfoView { name: self.name@, head: self.head@ }
    }
}

impl DeepView for BranchInfo {
    type V = BranchInfoView;

    open spec fn deep_view(&self) -> BranchInfoView {
        self@
    }
}

/// A branch as the storage lists it: its name, the commit it points at and
/// the time of that commit, in seconds.
#[derive(Debug, Clone, PartialEq, Eq)]
pub struct BranchRecord {
    pub name: String,
    pub head: String,
    pub commit_time: i64,
}

/// What a [`BranchRecord`] holds, as mathematical values.
pub struct BranchView {
    pub name: Seq<char>,
    pub head: Seq<char>,
    pub commit_time: i64,
}

impl View for BranchRecord {
    type V = BranchView;

    open spec fn view(&self) -> BranchView {
        BranchView { name: self.name@, head: self.head@, commit_time: self.commit_time }
    }
}

impl DeepView for BranchRecord {
    type V = BranchView;

    open spec fn deep_view(&self) -> BranchView {
        self@
    }
}

/// A worktree as the storage lists it: its name, its directory and the
/// branch that is checked out in it, where that can be read.
#[derive(Debug, Clone, PartialEq, Eq)]
pub struct WorktreeEntry {
    pub name: String,
    pub path: String,
    pub branch: Option<String>,
}

/// What a [`WorktreeEntry`] holds, as mathematical values.
pub struct WorktreeView {
    pub name: Seq<char>,
    pub path: Seq<char>,
    pub branch: Option<Seq<char>>,
}

impl View for WorktreeEntry {
    type V = WorktreeView;

    open spec fn view(&self) -> WorktreeView {
        WorktreeView { name: self.name@, path: self.path@, branch: self.branch.deep_view() }
    }
}

impl DeepView for WorktreeEntry {
    type V = WorktreeView;

    open spec fn deep_view(&self) -> WorktreeView {
        self@
    }
}

/// A worktree with the time of the last commit on its branch.
#[derive(Debug, Clone, PartialEq, Eq)]
pub struct WorktreeRecord {
    pub name: String,
    pub filesystem_path: String,
    pub last_commit_time: i64,
}

/// What a [`WorktreeRecord`] holds, as mathematical values.
pub struct WorktreeRecordView {
    pub name: Seq<char>,
    pub filesystem_path: Seq<char>,
    pub last_commit_time: i64,
}

impl View for WorktreeRecord {
    type V = WorktreeRecordView;

    open spec fn view(&self) -> WorktreeRecordView {
        WorktreeRecordView {
            name: self.name@,
            filesystem_path: self.filesystem_path@,
            last_commit_time: self.last_commit_time,
        }
    }
}

impl DeepView for WorktreeRecord {
    type V = WorktreeRecordView;

    open spec fn deep_view(&self) -> WorktreeRecordView {
        self@
    }
}

/// The commit that `HEAD` resolves to.
#[derive(Debug, Clone, PartialEq, Eq)]
pub struct HeadCommit {
    pub id: String,
    pub time: i64,
}

/// What a [`HeadCommit`] holds, as mathematical values.
pub struct HeadView {
    pub id: Seq<char>,
    pub time: i64,
}

impl View for HeadCommit {
    type V = HeadView;

    open spec fn view(&self) -> HeadView {
        HeadView { id: self.id@, time: self.time }
    }
}

impl DeepView for HeadCommit {
    type V = HeadView;

    open spec fn deep_view(&self) -> HeadView {
        self@
    }
}

/// A configured remote; its URL may be unreadable.
#[derive(Debug, Clone, PartialEq, Eq)]
pub struct Remote {
    pub url: Option<String>,
}

/// What a [`Remote`] holds, as mathematical values.
pub struct RemoteView {
    pub url: Option<Seq<char>>,
}

impl View for Remote {
    type V = RemoteView;

    open spec fn view(&self) -> RemoteView {
        RemoteView { url: self.url.deep_view() }
    }
}

impl DeepView for Remote {
    type V = RemoteView;

    open spec fn deep_view(&self) -> RemoteView {
        self@
    }
}

/// What the storage says of one path of the working tree.
#[derive(Debug, Clone, Copy, PartialEq, Eq, Structural)]
pub enum FileState {
    /// The path is not under version control.
    Untracked,
    /// The path is under version control and differs from the last commit.
    Changed,
}

/// The status flag of a path that is new in the working tree and not under
/// version control, as the storage numbers it.
pub const STATUS_WT_NEW: u32 = 128;

/// The status flag of a path that the storage is told to ignore, as the
/// storage numbers it.
pub const STATUS_IGNORED: u32 = 16384;

/// What a set of status flags says of a path: a path that is only new in
/// the working tree, or only ignored, is not under version control; with any
/// other flags it counts as changed.
pub open spec fn state_of_flags(flags: u32) -> FileState {
    if flags == STATUS_WT_NEW || flags == STATUS_IGNORED {
        FileState::Untracked
    } else {
        FileState::Changed
    }
}

/// Reads the status flags of a path as the storage reports them.
pub fn file_state(flags: u32) -> (state: FileState)
    ensures
        state == state_of_flags(flags),
{
    if flags == STATUS_WT_NEW || flags == STATUS_IGNORED {
        FileState::Untracked
    } else {
        FileState::Changed
    }
}

/// One line of the working tree's status.
#[derive(Debug, Clone, PartialEq, Eq)]
pub struct StatusEntry {
    pub path: String,
    pub state: FileState,
}

/// What a [`StatusEntry`] holds, as mathematical values.
pub struct StatusView {
    pub path: Seq<char>,
    pub state: FileState,
}

impl View for StatusEntry {
    type V = StatusView;

    open spec fn view(&self) -> StatusView {
        StatusView { path: self.path@, state: self.state }
    }
}

impl DeepView for StatusEntry {
    type V = StatusView;

    open spec fn deep_view(&self) -> StatusView {
        self@
    }
}

/// A repository at one point in time.
///
/// The lists are in the order in which the storage enumerates them.
#[derive(Debug, Clone, PartialEq, Eq)]
pub struct RepoSnapshot {
    pub is_bare: bool,
    pub is_worktree: bool,
    /// The directory that holds the repository's own data.
    pub git_dir: String,
    pub head: Option<HeadCommit>,
    /// The remote named `origin`, if it is configured.
    pub origin: Option<Remote>,
    pub local_branches: Vec<BranchRecord>,
    pub remote_branches: Vec<BranchRecord>,
    pub worktrees: Vec<WorktreeEntry>,
    pub statuses: Vec<StatusEntry>,
}

/// What a [`RepoSnapshot`] holds, as mathematical values.
pub struct RepoView {
    pub is_bare: bool,
    pub is_worktree: bool,
    pub git_dir: Seq<char>,
    pub head: Option<HeadView>,
    pub origin: Option<RemoteView>,
    pub local_branches: Seq<BranchView>,
    pub remote_branches: Seq<BranchView>,
    pub worktrees: Seq<WorktreeView>,
    pub statuses: Seq<StatusView>,
}

impl View for RepoSnapshot {
    type V = RepoView;

    open spec fn view(&self) -> RepoView {
        RepoView {
            is_bare: self.is_bare,
            is_worktree: self.is_worktree,
            git_dir: self.git_dir@,
            head: self.head.deep_view(),
            origin: self.origin.deep_view(),
            local_branches: self.local_branches.deep_view(),
            remote_branches: self.remote_branches.deep_view(),
            worktrees: self.worktrees.deep_view(),
            statuses: self.statuses.deep_view(),
        }
    }
}

/// The names of a list of branches.
pub open spec fn branch_names(branches: Seq<BranchView>) -> Seq<Seq<char>> {
    Seq::new(branches.len(), |i: int| branches[i].name)
}

/// The commit times of a list of branches.
pub open spec fn branch_times(branches: Seq<BranchView>) -> Seq<i64> {
    Seq::new(branches.len(), |i: int| branches[i].commit_time)
}

/// The names of a list of worktrees.
pub open spec fn worktree_names(worktrees: Seq<WorktreeView>) -> Seq<Seq<char>> {
    Seq::new(worktrees.len(), |i: int| worktrees[i].name)
}

/// The checked-out branches of a list of worktrees.
pub open spec fn worktree_branches(worktrees: Seq<WorktreeView>) -> Seq<Option<Seq<char>>> {
    Seq::new(worktrees.len(), |i: int| worktrees[i].branch)
}

/// Whether no name occurs twice.
pub open spec fn distinct(names: Seq<Seq<char>>) -> bool {
    forall|i: int, j: int| 0 <= i < j < names.len() ==> names[i] != names[j]
}

/// Whether no name holds a `/`.
pub open spec fn flat(names: Seq<Seq<char>>) -> bool {
    forall|i: int| 0 <= i < names.len() ==> !has_separator(#[trigger] names[i])
}

impl RepoView {
    /// The branches of one kind, in enumeration order.
    pub open spec fn branches(self, kind: BranchKind) -> Seq<BranchView> {
        match kind {
            BranchKind::Local => self.local_branches,
            BranchKind::Remote => self.remote_branches,
        }
    }

    /// What holds of every repository: no two local branches, no two remote
    /// branches and no two worktrees share a name, and the name of a worktree
    /// is a single path segment.
    pub open spec fn wf(self) -> bool {
        &&& distinct(branch_names(self.local_branches))
        &&& distinct(branch_names(self.remote_branches))
        &&& distinct(worktree_names(self.worktrees))
        &&& flat(worktree_names(self.worktrees))
    }
}

/// Classifies a repository by its two flags.
pub open spec fn topology_of(is_bare: bool, is_worktree: bool) -> Topology {
    if is_bare {
        Topology::Bare
    } else if is_worktree {
        Topology::Worktree
    } else {
        Topology::Regular
    }
}

impl Topology {
    /// Whether workspaces of such a repository are worktrees, not branches
    /// that are checked out in place.
    pub open spec fn spec_uses_worktrees(self) -> bool {
        self != Topology::Regular
    }

    /// Whether workspaces of such a repository are worktrees, not branches
    /// that are checked out in place.
    #[verifier::when_used_as_spec(spec_uses_worktrees)]
    pub fn uses_worktrees(self) -> (b: bool)
        ensures
            b == self.spec_uses_worktrees(),
    {
        match self {
            Topology::Regular => false,
            _ => true,
        }
    }
}

/// Classifies a repository: bare, a worktree of another repository, or a
/// regular checkout.
pub fn classify(repo: &RepoSnapshot) -> (t: Topology)
    ensures
        t == topology_of(repo.is_bare, repo.is_worktree),
        t.uses_worktrees() == (repo.is_bare || repo.is_worktree),
{
    if repo.is_bare {
        Topology::Bare
    } else if repo.is_worktree {
        Topology::Worktree
    } else {
        Topology::Regular
    }
}

/// A copy of an optional string.
pub(crate) fn copy_opt(s: &Option<String>) -> (r: Option<String>)
    ensures
        r.deep_view() == s.deep_view(),
{
    match s {
        Some(t) => Some(t.clone()),
        None => None,
    }
}

} // verus!
