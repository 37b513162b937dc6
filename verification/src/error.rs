//! What can go wrong, and how a caller is to treat it.

use vstd::prelude::*;

verus! {

/// How a caller treats a failure.
#[derive(Debug, Clone, Copy, PartialEq, Eq, Structural)]
pub enum ErrorClass {
    /// A name could not be resolved or nothing was chosen. The caller may
    /// ask again; nothing is retried by itself.
    Resolution,
    /// The user gave the operation up. This is not a fault and is not logged
    /// as one.
    Cancelled,
    /// Uncommitted changes stand in the way of a branch switch.
    DirtyWorkspace,
    /// The storage or the network failed. This ends the operation at hand.
    Fault,
}

/// The failures of the engine.
#[derive(Debug, Clone, Copy, PartialEq, Eq, Structural)]
pub enum EngineError {
    /// A worktree was asked for under a name that holds a `/`.
    SlashInWorktreeName,
    /// No worktree has the name.
    WorktreeNotFound,
    /// No worktree has the branch checked out.
    NoWorktreeForBranch,
    /// The branch of a worktree cannot be read.
    BranchNameUnavailable,
    /// The selection was accepted with nothing chosen.
    NothingSelected,
    /// The user left the selection with an abort key.
    Aborted,
    /// There is no pull request to choose from.
    NoPullRequests,
    /// There is no worktree to choose from.
    WorkspaceNotSelected,
    /// There is no branch to choose from.
    BranchNotSelected,
    /// The remote's URL does not name a hosted repository.
    InvalidGithubUrl,
    /// The URL matched without an owner.
    OwnerNotFound,
    /// The URL matched without a repository name.
    RepoNameNotFound,
    /// The remote has no readable URL.
    RemoteUrlNotFound,
    /// The remote `origin` is not configured.
    RemoteNotFound,
    /// The directory above the repository's data cannot be named.
    RootPathUnavailable,
    /// The remote's branches could not be fetched.
    FetchFailed,
    /// `HEAD` does not resolve to a commit.
    HeadUnavailable,
    /// A branch head is not an object id.
    InvalidObjectId,
    /// There are uncommitted changes to tracked files.
    DirtyWorkspace,
    /// The URL pattern was refused by the pattern compiler.
    InvalidPattern,
    /// The pull requests could not be listed.
    PullRequestsUnavailable,
}

/// A result with its value taken by its view.
pub open spec fn viewed<T: View>(r: Result<T, EngineError>) -> Result<T::V, EngineError> {
    match r {
        Ok(t) => Ok(t@),
        Err(e) => Err(e),
    }
}

impl EngineError {
    /// The class of a failure.
    pub open spec fn spec_class(self) -> ErrorClass {
        match self {
            EngineError::SlashInWorktreeName => ErrorClass::Resolution,
            EngineError::WorktreeNotFound => ErrorClass::Resolution,
            EngineError::NoWorktreeForBranch => ErrorClass::Resolution,
            EngineError::BranchNameUnavailable => ErrorClass::Resolution,
            EngineError::NothingSelected => ErrorClass::Resolution,
            EngineError::Aborted => ErrorClass::Cancelled,
            EngineError::NoPullRequests => ErrorClass::Resolution,
            EngineError::WorkspaceNotSelected => ErrorClass::Resolution,
            EngineError::BranchNotSelected => ErrorClass::Resolution,
            EngineError::InvalidGithubUrl => ErrorClass::Resolution,
            EngineError::OwnerNotFound => ErrorClass::Resolution,
            EngineError::RepoNameNotFound => ErrorClass::Resolution,
            EngineError::RemoteUrlNotFound => ErrorClass::Fault,
            EngineError::RemoteNotFound => ErrorClass::Fault,
            EngineError::RootPathUnavailable => ErrorClass::Fault,
            EngineError::FetchFailed => ErrorClass::Fault,
            EngineError::HeadUnavailable => ErrorClass::Fault,
            EngineError::InvalidObjectId => ErrorClass::Fault,
            EngineError::DirtyWorkspace => ErrorClass::DirtyWorkspace,
            EngineError::InvalidPattern => ErrorClass::Fault,
            EngineError::PullRequestsUnavailable => ErrorClass::Fault,
        }
    }

    /// The class of a failure.
    #[verifier::when_used_as_spec(spec_class)]
    pub fn class(self) -> (c: ErrorClass)
        ensures
            c == self.spec_class(),
            (c == ErrorClass::Cancelled) == (self == EngineError::Aborted),
            (c == ErrorClass::DirtyWorkspace) == (self == EngineError::DirtyWorkspace),
    {
        match self {
            EngineError::SlashInWorktreeName => ErrorClass::Resolution,
            EngineError::WorktreeNotFound => ErrorClass::Resolution,
            EngineError::NoWorktreeForBranch => ErrorClass::Resolution,
            EngineError::BranchNameUnavailable => ErrorClass::Resolution,
            EngineError::NothingSelected => ErrorClass::Resolution,
            EngineError::Aborted => ErrorClass::Cancelled,
            EngineError::NoPullRequests => ErrorClass::Resolution,
            EngineError::WorkspaceNotSelected => ErrorClass::Resolution,
            EngineError::BranchNotSelected => ErrorClass::Resolution,
            EngineError::InvalidGithubUrl => ErrorClass::Resolution,
            EngineError::OwnerNotFound => ErrorClass::Resolution,
            EngineError::RepoNameNotFound => ErrorClass::Resolution,
            EngineError::RemoteUrlNotFound => ErrorClass::Fault,
            EngineError::RemoteNotFound => ErrorClass::Fault,
            EngineError::RootPathUnavailable => ErrorClass::Fault,
            EngineError::FetchFailed => ErrorClass::Fault,
            EngineError::HeadUnavailable => ErrorClass::Fault,
            EngineError::InvalidObjectId => ErrorClass::Fault,
            EngineError::DirtyWorkspace => ErrorClass::DirtyWorkspace,
            EngineError::InvalidPattern => ErrorClass::Fault,
            EngineError::PullRequestsUnavailable => ErrorClass::Fault,
        }
    }

    /// Whether a failure is to be logged as a fault. A cancelled operation is
    /// not.
    pub fn is_fault(self) -> (b: bool)
        ensures
            b == (self.spec_class() != ErrorClass::Cancelled),
    {
        match self.class() {
            ErrorClass::Cancelled => false,
            _ => true,
        }
    }

    /// The text of a failure.
    pub open spec fn spec_message(self) -> Seq<char> {
        match self {
            EngineError::SlashInWorktreeName => "Cannot add a worktree with a '/' in the name"@,
            EngineError::WorktreeNotFound => "Worktree not found"@,
            EngineError::NoWorktreeForBranch => "No worktree found for the given branch name"@,
            EngineError::BranchNameUnavailable => "Failed to get branch name"@,
            EngineError::NothingSelected => "No item selected"@,
            EngineError::Aborted => "User chose to abort current operation"@,
            EngineError::NoPullRequests => "No available PRs to select"@,
            EngineError::WorkspaceNotSelected => "Workspace not selected"@,
            EngineError::BranchNotSelected => "Branch not selected"@,
            EngineError::InvalidGithubUrl => "Invalid GitHub URL"@,
            EngineError::OwnerNotFound => "Owner not found"@,
            EngineError::RepoNameNotFound => "Repository name not found"@,
            EngineError::RemoteUrlNotFound => "Remote URL not found"@,
            EngineError::RemoteNotFound => "Failed to find remote"@,
            EngineError::RootPathUnavailable => "Failed to get worktree root path"@,
            EngineError::FetchFailed => "Failed to fetch"@,
            EngineError::HeadUnavailable => "Failed to get head commit"@,
            EngineError::InvalidObjectId => "Failed to parse the branch head as an object id"@,
            EngineError::DirtyWorkspace => "Branch has uncommitted changes"@,
            EngineError::InvalidPattern => "Failed to compile the URL pattern"@,
            EngineError::PullRequestsUnavailable => "Failed to list the pull requests"@,
        }
    }

    /// The text of a failure with the branch, worktree or pull request that it
    /// is about, where there is one to name.
    pub open spec fn spec_describe(self, resource: Seq<char>) -> Seq<char> {
        if resource.len() == 0 {
            self.spec_message()
        } else {
            self.spec_message() + ": "@ + resource
        }
    }

    /// The text of a failure, followed by what could not be resolved or
    /// made: the name of a branch or a worktree, or the number of a pull
    /// request. With nothing to name, the text stands alone.
    pub fn describe(self, resource: &str) -> (s: String)
        ensures
            s@ == self.spec_describe(resource@),
    {
        let mut s = self.message();
        if !resource.is_empty() {
            s.append(": ");
            s.append(resource);
        }
        s
    }

    /// The text of a failure, for the user.
    pub fn message(self) -> (s: String)
        ensures
            s@ == self.spec_message(),
    {
        match self {
            EngineError::SlashInWorktreeName => String::from_str(
                "Cannot add a worktree with a '/' in the name",
            ),
            EngineError::WorktreeNotFound => String::from_str("Worktree not found"),
            EngineError::NoWorktreeForBranch => String::from_str(
                "No worktree found for the given branch name",
            ),
            EngineError::BranchNameUnavailable => String::from_str("Failed to get branch name"),
            EngineError::NothingSelected => String::from_str("No item selected"),
            EngineError::Aborted => String::from_str("User chose to abort current operation"),
            EngineError::NoPullRequests => String::from_str("No available PRs to select"),
            EngineError::WorkspaceNotSelected => String::from_str("Workspace not selected"),
            EngineError::BranchNotSelected => String::from_str("Branch not selected"),
            EngineError::InvalidGithubUrl => String::from_str("Invalid GitHub URL"),
            EngineError::OwnerNotFound => String::from_str("Owner not found"),
            EngineError::RepoNameNotFound => String::from_str("Repository name not found"),
            EngineError::RemoteUrlNotFound => String::from_str("Remote URL not found"),
            EngineError::RemoteNotFound => String::from_str("Failed to find remote"),
            EngineError::RootPathUnavailable => String::from_str(
                "Failed to get worktree root path",
            ),
            EngineError::FetchFailed => String::from_str("Failed to fetch"),
            EngineError::HeadUnavailable => String::from_str("Failed to get head commit"),
            EngineError::InvalidObjectId => String::from_str(
                "Failed to parse the branch head as an object id",
            ),
            EngineError::DirtyWorkspace => String::from_str("Branch has uncommitted changes"),
            EngineError::InvalidPattern => String::from_str("Failed to compile the URL pattern"),
            EngineError::PullRequestsUnavailable => String::from_str(
                "Failed to list the pull requests",
            ),
        }
    }
}

} // verus!
