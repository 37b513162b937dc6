//! Creating workspaces: a local branch in a regular repository, a worktree
//! in a bare repository or a worktree. Each operation decides what has to be
//! done and leaves the doing to the caller; asked again for a workspace that
//! is there, it finds that workspace and asks for nothing.

use vstd::prelude::*;
use crate::branch::{branch_exists_by_name, find_branch, get_branch, remote_prefix,
    resolved_branch, comparison_name};
use crate::error::{viewed, EngineError};
use crate::names::{contains_separator, has_separator, lemma_normalized_is_flat,
    normalize_workspace_name, normalized};
use crate::navigate::{cd_directive, change_directory, checkout, checkout_directive};
use crate::order::{first_index, is_first_at, lemma_first_index};
use crate::paths::{get_root_repo_path, join_path, path_join, root_repo_path};
use crate::repo::{branch_names, classify, copy_opt, distinct, worktree_names, AddKind, BranchInfo,
    BranchInfoView, BranchKind, BranchRecord, BranchView, RepoSnapshot, RepoView, WorktreeEntry,
    WorktreeView};
use crate::worktree::{find_worktree, worktree_named};

verus! {

/// How the fetch that comes before every creation went.
#[derive(Debug, Clone, Copy, PartialEq, Eq, Structural)]
pub enum FetchOutcome {
    Fetched,
    Failed,
}

/// Which kind of workspace a repository takes.
#[derive(Debug, Clone, Copy, PartialEq, Eq, Structural)]
pub enum AddTarget {
    Worktree,
    Branch,
}

/// What a new worktree has checked out.
#[derive(Debug, Clone, PartialEq, Eq)]
pub enum Checkout {
    /// A local branch that exists.
    Existing { branch: String },
    /// A local branch that is first made at the head of the remote branch of
    /// the same name. The commit time is that of the remote branch, where the
    /// snapshot lists it.
    Tracking { branch: String, head: String, commit_time: Option<i64> },
    /// What the storage chooses when no branch is named: a new branch with
    /// the worktree's name at the current `HEAD`.
    Default,
}

/// What a [`Checkout`] holds, as mathematical values.
pub enum CheckoutView {
    Existing { branch: Seq<char> },
    Tracking { branch: Seq<char>, head: Seq<char>, commit_time: Option<i64> },
    Default,
}

impl View for Checkout {
    type V = CheckoutView;

    open spec fn view(&self) -> CheckoutView {
        match self {
            Checkout::Existing { branch } => CheckoutView::Existing { branch: branch@ },
            Checkout::Tracking { branch, head, commit_time } => CheckoutView::Tracking {
                branch: branch@,
                head: head@,
                commit_time: *commit_time,
            },
            Checkout::Default => CheckoutView::Default,
        }
    }
}

/// What the caller has to do in the storage.
#[derive(Debug, Clone, PartialEq, Eq)]
pub enum StorageAction {
    /// Nothing: the workspace is there.
    Nothing,
    /// Make a local branch at a commit.
    CreateBranch { name: String, commit: String, commit_time: i64 },
    /// Make a worktree in a directory.
    CreateWorktree { name: String, path: String, checkout: Checkout },
}

/// What a [`StorageAction`] holds, as mathematical values.
pub enum StorageActionView {
    Nothing,
    CreateBranch { name: Seq<char>, commit: Seq<char>, commit_time: i64 },
    CreateWorktree { name: Seq<char>, path: Seq<char>, checkout: CheckoutView },
}

impl View for StorageAction {
    type V = StorageActionView;

    open spec fn view(&self) -> StorageActionView {
        match self {
            StorageAction::Nothing => StorageActionView::Nothing,
            StorageAction::CreateBranch { name, commit, commit_time } => {
                StorageActionView::CreateBranch {
                    name: name@,
                    commit: commit@,
                    commit_time: *commit_time,
                }
            },
            StorageAction::CreateWorktree { name, path, checkout } => {
                StorageActionView::CreateWorktree { name: name@, path: path@, checkout: checkout@ }
            },
        }
    }
}

/// The branch that a request came to.
#[derive(Debug, Clone, PartialEq, Eq)]
pub struct BranchAddition {
    pub branch: BranchInfo,
    pub kind: AddKind,
    pub action: StorageAction,
}

/// What a [`BranchAddition`] holds, as mathematical values.
pub struct BranchAdditionView {
    pub branch: BranchInfoView,
    pub kind: AddKind,
    pub action: StorageActionView,
}

impl View for BranchAddition {
    type V = BranchAdditionView;

    open spec fn view(&self) -> BranchAdditionView {
        BranchAdditionView { branch: self.branch@, kind: self.kind, action: self.action@ }
    }
}

/// The worktree that a request came to.
#[derive(Debug, Clone, PartialEq, Eq)]
pub struct WorktreeAddition {
    pub worktree: WorktreeEntry,
    pub kind: AddKind,
    pub action: StorageAction,
}

/// What a [`WorktreeAddition`] holds, as mathematical values.
pub struct WorktreeAdditionView {
    pub worktree: WorktreeView,
    pub kind: AddKind,
    pub action: StorageActionView,
}

impl View for WorktreeAddition {
    type V = WorktreeAdditionView;

    open spec fn view(&self) -> WorktreeAdditionView {
        WorktreeAdditionView { worktree: self.worktree@, kind: self.kind, action: self.action@ }
    }
}

/// The outcome of a request for a workspace: the directive for the shell,
/// whether the workspace is new, and what has to be done in the storage.
#[derive(Debug, Clone, PartialEq, Eq)]
pub struct Addition {
    pub directive: String,
    pub kind: AddKind,
    pub action: StorageAction,
}

/// What a [`Addition`] holds, as mathematical values.
pub struct AdditionView {
    pub directive: Seq<char>,
    pub kind: AddKind,
    pub action: StorageActionView,
}

impl View for Addition {
    type V = AdditionView;

    open spec fn view(&self) -> AdditionView {
        AdditionView { directive: self.directive@, kind: self.kind, action: self.action@ }
    }
}

/// Whether a character is a hexadecimal digit.
pub open spec fn is_hex_digit(c: char) -> bool {
    ('0' <= c && c <= '9') || ('a' <= c && c <= 'f') || ('A' <= c && c <= 'F')
}

/// Whether a text is an object id: one to forty hexadecimal digits.
pub open spec fn is_object_id(text: Seq<char>) -> bool {
    &&& 1 <= text.len() <= 40
    &&& forall|i: int| 0 <= i < text.len() ==> is_hex_digit(#[trigger] text[i])
}

/// The object id type of the `git2` crate.
#[verifier::external_type_specification]
#[verifier::external_body]
pub struct ExOid(git2::Oid);

/// The error type of the `git2` crate.
#[verifier::external_type_specification]
#[verifier::external_body]
pub struct ExGitError(git2::Error);

/// Reads a hexadecimal object id.
///
/// Trusted: this is `git2::Oid::from_str`. It fails exactly when the text is
/// empty, is longer than forty characters or holds a character that is not a
/// hexadecimal digit.
#[verifier::external_body]
pub(crate) fn parse_object_id(hex: &str) -> (r: Result<git2::Oid, git2::Error>)
    ensures
        r is Ok <==> is_object_id(hex@),
{
    git2::Oid::from_str(hex)
}

/// The repository with one more local branch, unless the name is taken.
pub open spec fn with_local_branch(repo: RepoView, b: BranchView) -> RepoView {
    if branch_names(repo.local_branches).contains(b.name) {
        repo
    } else {
        RepoView { local_branches: repo.local_branches.push(b), ..repo }
    }
}

/// The repository with one more worktree, unless the name is taken or is
/// no single path segment.
pub open spec fn with_worktree(repo: RepoView, w: WorktreeView) -> RepoView {
    if worktree_names(repo.worktrees).contains(w.name) || has_separator(w.name) {
        repo
    } else {
        RepoView { worktrees: repo.worktrees.push(w), ..repo }
    }
}

/// The branch that a new worktree has checked out.
pub open spec fn checkout_branch(checkout: CheckoutView, worktree_name: Seq<char>) -> Seq<char> {
    match checkout {
        CheckoutView::Existing { branch } => branch,
        CheckoutView::Tracking { branch, .. } => branch,
        CheckoutView::Default => worktree_name,
    }
}

/// The repository with the local branch that a checkout brings with it.
pub open spec fn with_checkout(repo: RepoView, checkout: CheckoutView, worktree_name: Seq<char>)
    -> RepoView {
    match checkout {
        CheckoutView::Existing { .. } => repo,
        CheckoutView::Tracking { branch, head, commit_time } => match commit_time {
            Some(t) => with_local_branch(
                repo,
                BranchView { name: branch, head: head, commit_time: t },
            ),
            None => repo,
        },
        CheckoutView::Default => match repo.head {
            Some(h) => with_local_branch(
                repo,
                BranchView { name: worktree_name, head: h.id, commit_time: h.time },
            ),
            None => repo,
        },
    }
}

/// The repository after the storage has carried an action out: what the
/// action makes is there, listed last, and nothing else has changed.
pub open spec fn applied(repo: RepoView, action: StorageActionView) -> RepoView {
    match action {
        StorageActionView::Nothing => repo,
        StorageActionView::CreateBranch { name, commit, commit_time } => with_local_branch(
            repo,
            BranchView { name: name, head: commit, commit_time: commit_time },
        ),
        StorageActionView::CreateWorktree { name, path, checkout } => with_worktree(
            with_checkout(repo, checkout, name),
            WorktreeView { name: name, path: path, branch: Some(checkout_branch(checkout, name)) },
        ),
    }
}

/// What a request for a branch comes to. A local branch of the name is
/// taken; else a remote branch of the name stands for it, and no local
/// branch is made; else a branch is made at the current `HEAD`.
pub open spec fn planned_branch(repo: RepoView, name: Seq<char>) -> Result<
    BranchAdditionView,
    EngineError,
> {
    match resolved_branch(repo.local_branches, name, BranchKind::Local) {
        Some(b) => Ok(
            BranchAdditionView {
                branch: b,
                kind: AddKind::Existed,
                action: StorageActionView::Nothing,
            },
        ),
        None => match resolved_branch(repo.remote_branches, name, BranchKind::Remote) {
            Some(b) => Ok(
                BranchAdditionView {
                    branch: b,
                    kind: AddKind::Existed,
                    action: StorageActionView::Nothing,
                },
            ),
            None => match repo.head {
                Some(h) => Ok(
                    BranchAdditionView {
                        branch: BranchInfoView { name: name, head: h.id },
                        kind: AddKind::Added,
                        action: StorageActionView::CreateBranch {
                            name: name,
                            commit: h.id,
                            commit_time: h.time,
                        },
                    },
                ),
                None => Err(EngineError::HeadUnavailable),
            },
        },
    }
}

/// The commit time of the remote branch that is listed for a name.
pub open spec fn remote_commit_time(repo: RepoView, name: Seq<char>) -> Option<i64> {
    match first_index(branch_names(repo.remote_branches), remote_prefix() + name) {
        Some(i) => Some(repo.remote_branches[i].commit_time),
        None => None,
    }
}

/// What a new worktree checks out: the local branch of the remote branch's
/// name, made at the remote branch's head where it does not exist; without a
/// remote branch, what the storage chooses.
pub open spec fn planned_checkout(repo: RepoView, remote_branch: Option<BranchInfoView>) -> Result<
    CheckoutView,
    EngineError,
> {
    match remote_branch {
        None => Ok(CheckoutView::Default),
        Some(b) => if branch_names(repo.local_branches).contains(b.name) {
            Ok(CheckoutView::Existing { branch: b.name })
        } else if is_object_id(b.head) {
            Ok(
                CheckoutView::Tracking {
                    branch: b.name,
                    head: b.head,
                    commit_time: remote_commit_time(repo, b.name),
                },
            )
        } else {
            Err(EngineError::InvalidObjectId)
        },
    }
}

/// What a request for a worktree comes to. The name is normalized; a
/// worktree of that name is taken as it is; else one is made in the
/// directory of that name below the repository's root.
pub open spec fn planned_worktree(
    repo: RepoView,
    worktree_name: Seq<char>,
    remote_branch: Option<BranchInfoView>,
) -> Result<WorktreeAdditionView, EngineError> {
    let name = normalized(worktree_name);
    match worktree_named(repo, name) {
        Some(w) => Ok(
            WorktreeAdditionView {
                worktree: w,
                kind: AddKind::Existed,
                action: StorageActionView::Nothing,
            },
        ),
        None => match root_repo_path(repo) {
            Err(e) => Err(e),
            Ok(root) => match planned_checkout(repo, remote_branch) {
                Err(e) => Err(e),
                Ok(c) => Ok(
                    WorktreeAdditionView {
                        worktree: WorktreeView {
                            name: name,
                            path: path_join(root, name),
                            branch: Some(checkout_branch(c, name)),
                        },
                        kind: AddKind::Added,
                        action: StorageActionView::CreateWorktree {
                            name: name,
                            path: path_join(root, name),
                            checkout: c,
                        },
                    },
                ),
            },
        },
    }
}

/// What a request for a worktree comes to after the fetch: the worktree is
/// anchored at the remote branch of the requested name, if there is one, and
/// the directive changes into its directory.
pub open spec fn worktree_addition(repo: RepoView, fetch: FetchOutcome, name: Seq<char>) -> Result<
    AdditionView,
    EngineError,
> {
    match fetch {
        FetchOutcome::Failed => Err(EngineError::FetchFailed),
        FetchOutcome::Fetched => match planned_worktree(
            repo,
            name,
            resolved_branch(repo.remote_branches, name, BranchKind::Remote),
        ) {
            Ok(a) => Ok(
                AdditionView {
                    directive: cd_directive(a.worktree.path),
                    kind: a.kind,
                    action: a.action,
                },
            ),
            Err(e) => Err(e),
        },
    }
}

/// What a request for a branch comes to after the fetch: the directive
/// checks the branch out.
pub open spec fn branch_addition(repo: RepoView, fetch: FetchOutcome, name: Seq<char>) -> Result<
    AdditionView,
    EngineError,
> {
    match fetch {
        FetchOutcome::Failed => Err(EngineError::FetchFailed),
        FetchOutcome::Fetched => match planned_branch(repo, name) {
            Ok(a) => Ok(
                AdditionView {
                    directive: checkout_directive(a.branch.name),
                    kind: a.kind,
                    action: a.action,
                },
            ),
            Err(e) => Err(e),
        },
    }
}

/// Which workspace a repository takes for a name that the user gave: a
/// worktree where the repository is bare or a worktree, and then the name
/// must be free of `/`; else a branch.
pub open spec fn add_target(repo: RepoView, name: Seq<char>) -> Result<AddTarget, EngineError> {
    if repo.is_bare || repo.is_worktree {
        if has_separator(name) {
            Err(EngineError::SlashInWorktreeName)
        } else {
            Ok(AddTarget::Worktree)
        }
    } else {
        Ok(AddTarget::Branch)
    }
}

impl RepoSnapshot {
    fn push_local_branch(&mut self, name: &String, head: &String, commit_time: i64)
        ensures
            final(self)@ == with_local_branch(
                old(self)@,
                BranchView { name: name@, head: head@, commit_time: commit_time },
            ),
    {
        let found = find_branch(&self.local_branches, name);
        proof {
            lemma_first_index(branch_names(self@.local_branches), name@);
        }
        if found.is_none() {
            let ghost before = self@;
            self.local_branches.push(
                BranchRecord { name: name.clone(), head: head.clone(), commit_time },
            );
            assert(self@.local_branches =~= before.local_branches.push(
                BranchView { name: name@, head: head@, commit_time: commit_time },
            ));
        }
    }

    fn push_worktree(&mut self, name: &String, path: &String, branch: &String)
        ensures
            final(self)@ == with_worktree(
                old(self)@,
                WorktreeView { name: name@, path: path@, branch: Some(branch@) },
            ),
    {
        let found = find_worktree(&self.worktrees, name);
        proof {
            lemma_first_index(worktree_names(self@.worktrees), name@);
        }
        if found.is_none() && !contains_separator(name.as_str()) {
            let ghost before = self@;
            self.worktrees.push(
                WorktreeEntry {
                    name: name.clone(),
                    path: path.clone(),
                    branch: Some(branch.clone()),
                },
            );
            assert(self@.worktrees =~= before.worktrees.push(
                WorktreeView { name: name@, path: path@, branch: Some(branch@) },
            ));
        }
    }

    /// Records that the storage has carried an action out, so that later
    /// requests on this snapshot find what was made. What is made is listed
    /// last; where the storage itself lists it, a fresh snapshot tells. No
    /// name is ever listed twice, and no worktree is listed under a name with
    /// a `/`.
    pub fn apply(&mut self, action: &StorageAction)
        ensures
            final(self)@ == applied(old(self)@, action@),
            old(self)@.wf() ==> final(self)@.wf(),
    {
        proof {
            lemma_applied_keeps_names_distinct(self@, action@);
        }
        match action {
            StorageAction::Nothing => {},
            StorageAction::CreateBranch { name, commit, commit_time } => {
                self.push_local_branch(name, commit, *commit_time);
            },
            StorageAction::CreateWorktree { name, path, checkout } => {
                match checkout {
                    Checkout::Existing { branch } => {
                        self.push_worktree(name, path, branch);
                    },
                    Checkout::Tracking { branch, head, commit_time } => {
                        match commit_time {
                            Some(t) => {
                                self.push_local_branch(branch, head, *t);
                            },
                            None => {},
                        }
                        self.push_worktree(name, path, branch);
                    },
                    Checkout::Default => {
                        let tip: Option<(String, i64)> = match &self.head {
                            Some(h) => Some((h.id.clone(), h.time)),
                            None => None,
                        };
                        match tip {
                            Some((id, time)) => {
                                self.push_local_branch(name, &id, time);
                            },
                            None => {},
                        }
                        self.push_worktree(name, path, name);
                    },
                }
            },
        }
    }
}

/// The full name of the reference of a local branch.
pub open spec fn local_ref_name(branch: Seq<char>) -> Seq<char> {
    "refs/heads/"@ + branch
}

/// The full name of the reference under which the remote's branch is kept.
pub open spec fn remote_ref_name(branch: Seq<char>) -> Seq<char> {
    "refs/remotes/origin/"@ + branch
}

/// The full name of the reference of a local branch.
pub fn local_branch_reference_name(branch: &BranchInfo) -> (name: String)
    ensures
        name@ == local_ref_name(branch.name@),
{
    let mut name = String::from_str("refs/heads/");
    name.append(branch.name.as_str());
    name
}

/// The full name of the reference under which the remote's branch is kept.
pub fn _get_remote_branch_reference(branch: &BranchInfo) -> (name: String)
    ensures
        name@ == remote_ref_name(branch.name@),
{
    let mut name = String::from_str("refs/remotes/origin/");
    name.append(branch.name.as_str());
    name
}

/// Finds the local branch that stands for a remote branch, or says how it
/// is to be made: at the remote branch's head, which must be an object id.
pub fn get_local_branch_reference(repo: &RepoSnapshot, branch: &BranchInfo) -> (r: Result<
    Checkout,
    EngineError,
>)
    ensures
        viewed(r) == planned_checkout(repo@, Some(branch@)),
{
    if branch_exists_by_name(repo, branch.name.as_str(), BranchKind::Local) {
        return Ok(Checkout::Existing { branch: branch.name.clone() });
    }
    match parse_object_id(branch.head.as_str()) {
        Err(_) => Err(EngineError::InvalidObjectId),
        Ok(_) => {
            let listed = comparison_name(branch.name.as_str(), BranchKind::Remote);
            let commit_time = match find_branch(&repo.remote_branches, &listed) {
                Some(i) => Some(repo.remote_branches[i].commit_time),
                None => None,
            };
            Ok(
                Checkout::Tracking {
                    branch: branch.name.clone(),
                    head: branch.head.clone(),
                    commit_time,
                },
            )
        },
    }
}

/// Resolves a request for a branch. A local branch of the name is taken as
/// it is. Else a remote branch of the name stands for it, and no local branch
/// is made. Else a branch is to be made at the current `HEAD`.
pub fn add_branch(repo: &RepoSnapshot, branch_name: &str) -> (r: Result<
    BranchAddition,
    EngineError,
>)
    ensures
        viewed(r) == planned_branch(repo@, branch_name@),
{
    if let Some(branch) = get_branch(repo, branch_name, BranchKind::Local) {
        return Ok(
            BranchAddition { branch, kind: AddKind::Existed, action: StorageAction::Nothing },
        );
    }
    if let Some(branch) = get_branch(repo, branch_name, BranchKind::Remote) {
        return Ok(
            BranchAddition { branch, kind: AddKind::Existed, action: StorageAction::Nothing },
        );
    }
    match &repo.head {
        Some(h) => Ok(
            BranchAddition {
                branch: BranchInfo { name: branch_name.to_owned(), head: h.id.clone() },
                kind: AddKind::Added,
                action: StorageAction::CreateBranch {
                    name: branch_name.to_owned(),
                    commit: h.id.clone(),
                    commit_time: h.time,
                },
            },
        ),
        None => Err(EngineError::HeadUnavailable),
    }
}

/// Resolves a request for a worktree. The name is normalized first. A
/// worktree of that name is taken as it is. Else one is to be made in the
/// directory of that name below the repository's root, with the local branch
/// of the remote branch checked out, or without a remote branch with what
/// the storage chooses.
pub fn add_worktree(
    repo: &RepoSnapshot,
    worktree_name: &str,
    remote_branch: &Option<BranchInfo>,
) -> (r: Result<WorktreeAddition, EngineError>)
    ensures
        viewed(r) == planned_worktree(repo@, worktree_name@, remote_branch.deep_view()),
{
    let name = normalize_workspace_name(worktree_name);
    match find_worktree(&repo.worktrees, &name) {
        Some(i) => {
            let w = &repo.worktrees[i];
            Ok(
                WorktreeAddition {
                    worktree: WorktreeEntry {
                        name: w.name.clone(),
                        path: w.path.clone(),
                        branch: copy_opt(&w.branch),
                    },
                    kind: AddKind::Existed,
                    action: StorageAction::Nothing,
                },
            )
        },
        None => {
            let root = match get_root_repo_path(repo) {
                Ok(root) => root,
                Err(e) => {
                    return Err(e);
                },
            };
            let path = join_path(root.as_str(), name.as_str());
            let checkout = match remote_branch {
                Some(b) => match get_local_branch_reference(repo, b) {
                    Ok(c) => c,
                    Err(e) => {
                        return Err(e);
                    },
                },
                None => Checkout::Default,
            };
            let branch = match &checkout {
                Checkout::Existing { branch } => branch.clone(),
                Checkout::Tracking { branch, .. } => branch.clone(),
                Checkout::Default => name.clone(),
            };
            Ok(
                WorktreeAddition {
                    worktree: WorktreeEntry {
                        name: name.clone(),
                        path: path.clone(),
                        branch: Some(branch),
                    },
                    kind: AddKind::Added,
                    action: StorageAction::CreateWorktree { name, path, checkout },
                },
            )
        },
    }
}

/// Resolves a request for a worktree after the fetch. A failed fetch ends
/// the request before anything is looked at. The worktree is anchored at the
/// remote branch of the requested name, if there is one; the directive
/// changes into the worktree's directory.
pub fn add_worktree_to_repo(repo: &RepoSnapshot, fetch: FetchOutcome, worktree_name: &str) -> (r:
    Result<Addition, EngineError>)
    ensures
        viewed(r) == worktree_addition(repo@, fetch, worktree_name@),
        fetch == FetchOutcome::Failed ==> r is Err,
{
    match fetch {
        FetchOutcome::Failed => {
            return Err(EngineError::FetchFailed);
        },
        FetchOutcome::Fetched => {},
    }
    let remote_branch = get_branch(repo, worktree_name, BranchKind::Remote);
    match add_worktree(repo, worktree_name, &remote_branch) {
        Ok(a) => Ok(
            Addition {
                directive: change_directory(&a.worktree.path),
                kind: a.kind,
                action: a.action,
            },
        ),
        Err(e) => Err(e),
    }
}

/// Resolves a request for a branch after the fetch. A failed fetch ends the
/// request before anything is looked at. The directive checks the branch
/// out.
pub fn add_branch_to_repo(repo: &RepoSnapshot, fetch: FetchOutcome, branch_name: &str) -> (r:
    Result<Addition, EngineError>)
    ensures
        viewed(r) == branch_addition(repo@, fetch, branch_name@),
        fetch == FetchOutcome::Failed ==> r is Err,
{
    match fetch {
        FetchOutcome::Failed => {
            return Err(EngineError::FetchFailed);
        },
        FetchOutcome::Fetched => {},
    }
    match add_branch(repo, branch_name) {
        Ok(a) => Ok(
            Addition {
                directive: checkout(a.branch.name.as_str()),
                kind: a.kind,
                action: a.action,
            },
        ),
        Err(e) => Err(e),
    }
}

/// Decides which workspace a name that the user gave asks for. In a bare
/// repository or a worktree it is a worktree, and a name with a `/` is
/// refused before anything else is done; in a regular repository it is a
/// branch.
pub fn add_sub_command(repo: &RepoSnapshot, name: &str) -> (r: Result<AddTarget, EngineError>)
    ensures
        r == add_target(repo@, name@),
{
    if classify(repo).uses_worktrees() {
        if contains_separator(name) {
            return Err(EngineError::SlashInWorktreeName);
        }
        Ok(AddTarget::Worktree)
    } else {
        Ok(AddTarget::Branch)
    }
}

/// Which of the two requests a repository takes when no name has to be
/// checked: a worktree where the repository is bare or a worktree, else a
/// branch.
pub open spec fn addition_for(repo: RepoView, fetch: FetchOutcome, name: Seq<char>) -> Result<
    AdditionView,
    EngineError,
> {
    if repo.is_bare || repo.is_worktree {
        worktree_addition(repo, fetch, name)
    } else {
        branch_addition(repo, fetch, name)
    }
}

/// Resolves a request for a workspace of the kind that the repository
/// takes.
pub fn add_workspace(repo: &RepoSnapshot, fetch: FetchOutcome, name: &str) -> (r: Result<
    Addition,
    EngineError,
>)
    ensures
        viewed(r) == addition_for(repo@, fetch, name@),
{
    if classify(repo).uses_worktrees() {
        add_worktree_to_repo(repo, fetch, name)
    } else {
        add_branch_to_repo(repo, fetch, name)
    }
}

/// Asking twice for the same branch is asking once: after the first request
/// is carried out, the second finds the same branch, reports it as existing
/// and asks for nothing, so the repository stays as it is.
pub proof fn lemma_add_branch_idempotent(repo: RepoView, name: Seq<char>)
    requires
        planned_branch(repo, name) is Ok,
    ensures
        ({
            let first = planned_branch(repo, name)->Ok_0;
            let after = applied(repo, first.action);
            let second = planned_branch(after, name);
            &&& second is Ok
            &&& second->Ok_0.kind == AddKind::Existed
            &&& second->Ok_0.action == StorageActionView::Nothing
            &&& second->Ok_0.branch == first.branch
            &&& applied(after, second->Ok_0.action) == after
        }),
{
    let first = planned_branch(repo, name)->Ok_0;
    let after = applied(repo, first.action);
    let names = branch_names(repo.local_branches);
    lemma_first_index(names, name);
    if first.kind == AddKind::Added {
        let h = repo.head->Some_0;
        let b = BranchView { name: name, head: h.id, commit_time: h.time };
        assert(!names.contains(name));
        assert(after.local_branches == repo.local_branches.push(b));
        let longer = branch_names(after.local_branches);
        assert(is_first_at(longer, name, names.len() as int)) by {
            assert(longer[names.len() as int] == name);
            assert forall|j: int| 0 <= j < names.len() implies longer[j] != name by {
                assert(longer[j] == names[j]);
                assert(names.contains(names[j]));
            }
        }
        lemma_first_index(longer, name);
    }
}

/// Asking twice for the same worktree is asking once, and every spelling
/// that normalizes to the same name reaches the same worktree: after the
/// first request is carried out, a second request under any such spelling,
/// anchored anywhere, finds the worktree of the first, reports it as existing
/// and asks for nothing, so the repository stays as it is.
pub proof fn lemma_add_worktree_idempotent(
    repo: RepoView,
    name: Seq<char>,
    remote_branch: Option<BranchInfoView>,
    again: Seq<char>,
    again_branch: Option<BranchInfoView>,
)
    requires
        planned_worktree(repo, name, remote_branch) is Ok,
        normalized(again) == normalized(name),
    ensures
        ({
            let first = planned_worktree(repo, name, remote_branch)->Ok_0;
            let after = applied(repo, first.action);
            let second = planned_worktree(after, again, again_branch);
            &&& first.worktree.name == normalized(name)
            &&& !has_separator(first.worktree.name)
            &&& second is Ok
            &&& second->Ok_0.kind == AddKind::Existed
            &&& second->Ok_0.action == StorageActionView::Nothing
            &&& second->Ok_0.worktree == first.worktree
            &&& applied(after, second->Ok_0.action) == after
        }),
{
    let flat = normalized(name);
    let first = planned_worktree(repo, name, remote_branch)->Ok_0;
    let after = applied(repo, first.action);
    let names = worktree_names(repo.worktrees);
    lemma_first_index(names, flat);
    lemma_normalized_is_flat(name);
    if first.kind == AddKind::Added {
        let c = planned_checkout(repo, remote_branch)->Ok_0;
        let mid = with_checkout(repo, c, flat);
        assert(mid.worktrees == repo.worktrees);
        assert(!names.contains(flat));
        assert(after.worktrees == repo.worktrees.push(first.worktree));
        let longer = worktree_names(after.worktrees);
        assert(is_first_at(longer, flat, names.len() as int)) by {
            assert(longer[names.len() as int] == flat);
            assert forall|j: int| 0 <= j < names.len() implies longer[j] != flat by {
                assert(longer[j] == names[j]);
                assert(names.contains(names[j]));
            }
        }
        lemma_first_index(longer, flat);
    }
}

/// Spellings that differ only in `/` and `_` name one worktree: after a
/// worktree was asked for under one spelling and made, asking under another
/// that normalizes to the same name gives the same directive, reports the
/// worktree as existing and asks for nothing.
pub proof fn lemma_spellings_share_worktree(repo: RepoView, first: Seq<char>, second: Seq<char>)
    requires
        normalized(first) == normalized(second),
        worktree_addition(repo, FetchOutcome::Fetched, first) is Ok,
    ensures
        ({
            let made = worktree_addition(repo, FetchOutcome::Fetched, first)->Ok_0;
            let after = applied(repo, made.action);
            let again = worktree_addition(after, FetchOutcome::Fetched, second);
            &&& again is Ok
            &&& again->Ok_0.kind == AddKind::Existed
            &&& again->Ok_0.action == StorageActionView::Nothing
            &&& again->Ok_0.directive == made.directive
            &&& applied(after, again->Ok_0.action) == after
        }),
{
    let made = worktree_addition(repo, FetchOutcome::Fetched, first)->Ok_0;
    let after = applied(repo, made.action);
    lemma_add_worktree_idempotent(
        repo,
        first,
        resolved_branch(repo.remote_branches, first, BranchKind::Remote),
        second,
        resolved_branch(after.remote_branches, second, BranchKind::Remote),
    );
}

/// The engine never invents a commit. A branch is made at the commit of
/// `HEAD`; a worktree checks out a local branch that exists, or one that is
/// made at the head of the remote branch of the requested name as the
/// snapshot lists it, or what the storage chooses.
pub proof fn lemma_actions_point_at_known_commits(
    repo: RepoView,
    fetch: FetchOutcome,
    name: Seq<char>,
)
    requires
        addition_for(repo, fetch, name) is Ok,
    ensures
        match addition_for(repo, fetch, name)->Ok_0.action {
            StorageActionView::Nothing => addition_for(repo, fetch, name)->Ok_0.kind
                == AddKind::Existed,
            StorageActionView::CreateBranch { name: made, commit, commit_time } => {
                &&& made == name
                &&& repo.head == Some(crate::repo::HeadView { id: commit, time: commit_time })
            },
            StorageActionView::CreateWorktree { name: made, path, checkout } => {
                &&& made == normalized(name)
                &&& match checkout {
                    CheckoutView::Existing { branch } => branch == name && branch_names(
                        repo.local_branches,
                    ).contains(branch),
                    CheckoutView::Tracking { branch, head, commit_time } => {
                        &&& branch == name
                        &&& exists|i: int|
                            0 <= i < repo.remote_branches.len() && (
                            #[trigger] repo.remote_branches[i]).name == remote_prefix() + name
                                && repo.remote_branches[i].head == head && commit_time == Some(
                                repo.remote_branches[i].commit_time,
                            )
                    },
                    CheckoutView::Default => resolved_branch(
                        repo.remote_branches,
                        name,
                        BranchKind::Remote,
                    ) is None,
                }
            },
        },
{
    lemma_first_index(branch_names(repo.remote_branches), remote_prefix() + name);
    if repo.is_bare || repo.is_worktree {
        let rb = resolved_branch(repo.remote_branches, name, BranchKind::Remote);
        if rb is Some {
            let i = first_index(branch_names(repo.remote_branches), remote_prefix() + name)->Some_0;
            assert(repo.remote_branches[i].name == remote_prefix() + name);
        }
    }
}

/// The same holds of the whole request, fetch and directive included: the
/// second request gives the directive of the first, reports the workspace
/// as existing and asks for nothing.
pub proof fn lemma_add_workspace_idempotent(repo: RepoView, name: Seq<char>)
    requires
        addition_for(repo, FetchOutcome::Fetched, name) is Ok,
    ensures
        ({
            let first = addition_for(repo, FetchOutcome::Fetched, name)->Ok_0;
            let after = applied(repo, first.action);
            let second = addition_for(after, FetchOutcome::Fetched, name);
            &&& second is Ok
            &&& second->Ok_0.kind == AddKind::Existed
            &&& second->Ok_0.action == StorageActionView::Nothing
            &&& second->Ok_0.directive == first.directive
            &&& applied(after, second->Ok_0.action) == after
        }),
{
    let first = addition_for(repo, FetchOutcome::Fetched, name)->Ok_0;
    let after = applied(repo, first.action);
    if repo.is_bare || repo.is_worktree {
        let rb = resolved_branch(repo.remote_branches, name, BranchKind::Remote);
        let rb2 = resolved_branch(after.remote_branches, name, BranchKind::Remote);
        lemma_add_worktree_idempotent(repo, name, rb, name, rb2);
    } else {
        lemma_add_branch_idempotent(repo, name);
    }
}

proof fn lemma_push_distinct(names: Seq<Seq<char>>, name: Seq<char>)
    requires
        distinct(names),
        !names.contains(name),
    ensures
        distinct(names.push(name)),
{
    let longer = names.push(name);
    assert forall|i: int, j: int| 0 <= i < j < longer.len() implies longer[i] != longer[j] by {
        if j < names.len() {
            assert(longer[i] == names[i] && longer[j] == names[j]);
        } else {
            assert(longer[i] == names[i]);
            assert(names.contains(names[i]));
        }
    }
}

proof fn lemma_with_local_branch_wf(repo: RepoView, b: BranchView)
    requires
        repo.wf(),
    ensures
        with_local_branch(repo, b).wf(),
        with_local_branch(repo, b).worktrees == repo.worktrees,
{
    if !branch_names(repo.local_branches).contains(b.name) {
        lemma_push_distinct(branch_names(repo.local_branches), b.name);
        assert(branch_names(repo.local_branches.push(b)) =~= branch_names(
            repo.local_branches,
        ).push(b.name));
    }
}

proof fn lemma_with_worktree_wf(repo: RepoView, w: WorktreeView)
    requires
        repo.wf(),
    ensures
        with_worktree(repo, w).wf(),
{
    if !worktree_names(repo.worktrees).contains(w.name) && !has_separator(w.name) {
        lemma_push_distinct(worktree_names(repo.worktrees), w.name);
        let longer = worktree_names(repo.worktrees.push(w));
        assert(longer =~= worktree_names(repo.worktrees).push(w.name));
        assert forall|i: int| 0 <= i < longer.len() implies !has_separator(
            #[trigger] longer[i],
        ) by {
            if i < repo.worktrees.len() {
                assert(longer[i] == worktree_names(repo.worktrees)[i]);
            }
        }
    }
}

/// Carrying an action out keeps what holds of every repository: no two
/// branches and no two worktrees share a name, and every worktree name is a
/// single path segment.
pub proof fn lemma_applied_keeps_names_distinct(repo: RepoView, action: StorageActionView)
    ensures
        repo.wf() ==> applied(repo, action).wf(),
{
    if repo.wf() {
        match action {
            StorageActionView::Nothing => {},
            StorageActionView::CreateBranch { name, commit, commit_time } => {
                lemma_with_local_branch_wf(
                    repo,
                    BranchView { name: name, head: commit, commit_time: commit_time },
                );
            },
            StorageActionView::CreateWorktree { name, path, checkout } => {
                let mid = with_checkout(repo, checkout, name);
                match checkout {
                    CheckoutView::Existing { .. } => {},
                    CheckoutView::Tracking { branch, head, commit_time } => {
                        if commit_time is Some {
                            lemma_with_local_branch_wf(
                                repo,
                                BranchView {
                                    name: branch,
                                    head: head,
                                    commit_time: commit_time->Some_0,
                                },
                            );
                        }
                    },
                    CheckoutView::Default => {
                        if repo.head is Some {
                            lemma_with_local_branch_wf(
                                repo,
                                BranchView {
                                    name: name,
                                    head: repo.head->Some_0.id,
                                    commit_time: repo.head->Some_0.time,
                                },
                            );
                        }
                    },
                }
                lemma_with_worktree_wf(
                    mid,
                    WorktreeView {
                        name: name,
                        path: path,
                        branch: Some(checkout_branch(checkout, name)),
                    },
                );
            },
        }
    }
}

} // verus!
