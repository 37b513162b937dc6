//! What is fetched before a workspace is made.

use vstd::prelude::*;
use crate::error::{viewed, EngineError};
use crate::repo::RepoSnapshot;

verus! {

/// A fetch that the caller has to run.
#[derive(Debug, Clone, PartialEq, Eq)]
pub struct FetchRequest {
    /// The name of the remote.
    pub remote: String,
    /// What is fetched, and where it is kept.
    pub refspecs: Vec<String>,
}

/// What a [`FetchRequest`] holds, as mathematical values.
pub struct FetchRequestView {
    pub remote: Seq<char>,
    pub refspecs: Seq<Seq<char>>,
}

impl View for FetchRequest {
    type V = FetchRequestView;

    open spec fn view(&self) -> FetchRequestView {
        FetchRequestView { remote: self.remote@, refspecs: self.refspecs.deep_view() }
    }
}

/// The fetch that brings every branch of `origin` up to date.
pub open spec fn fetch_of_all_branches() -> FetchRequestView {
    FetchRequestView {
        remote: "origin"@,
        refspecs: seq!["+refs/heads/*:refs/remotes/origin/*"@],
    }
}

/// The user name for the key agent: the one in the URL, or `git`.
pub open spec fn agent_user(username_from_url: Option<Seq<char>>) -> Seq<char> {
    match username_from_url {
        Some(u) => u,
        None => "git"@,
    }
}

/// Says what to fetch before a workspace is made: every branch of the remote
/// `origin`, into the references that track it. Without that remote there is
/// nothing to fetch from.
pub fn fetch_all(repo: &RepoSnapshot) -> (r: Result<FetchRequest, EngineError>)
    ensures
        viewed(r) == match repo@.origin {
            Some(_) => Ok::<FetchRequestView, EngineError>(fetch_of_all_branches()),
            None => Err(EngineError::RemoteNotFound),
        },
{
    match &repo.origin {
        None => Err(EngineError::RemoteNotFound),
        Some(_) => {
            let mut refspecs: Vec<String> = Vec::new();
            refspecs.push(String::from_str("+refs/heads/*:refs/remotes/origin/*"));
            assert(refspecs.deep_view() =~= fetch_of_all_branches().refspecs);
            Ok(FetchRequest { remote: String::from_str("origin"), refspecs })
        },
    }
}

/// The user name under which the key agent is asked for a key.
pub fn agent_username(username_from_url: Option<String>) -> (user: String)
    ensures
        user@ == agent_user(username_from_url.deep_view()),
{
    match username_from_url {
        Some(u) => u,
        None => String::from_str("git"),
    }
}

} // verus!
