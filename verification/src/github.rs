//! The hosted repository behind the remote: its owner and name, and how the
//! client of the code-review service is set up.

use vstd::prelude::*;
use crate::error::{viewed, EngineError};
use crate::repo::{RepoSnapshot, RepoView};
use crate::text::{decimal, decimal_string, has_char, stands_at, text_at};

verus! {

/// The owner and the name of a hosted repository.
#[derive(Debug, Clone, PartialEq, Eq)]
pub struct GitRepoInfo {
    pub owner: String,
    pub repo: String,
}

/// What a [`GitRepoInfo`] holds, as mathematical values.
pub struct GitRepoInfoView {
    pub owner: Seq<char>,
    pub repo: Seq<char>,
}

impl View for GitRepoInfo {
    type V = GitRepoInfoView;

    open spec fn view(&self) -> GitRepoInfoView {
        GitRepoInfoView { owner: self.owner@, repo: self.repo@ }
    }
}

/// The error type of the `regex` crate.
#[verifier::external_type_specification]
#[verifier::external_body]
pub struct ExRegexError(regex::Error);

/// Whether `Regex::new` of the `regex` crate accepts a pattern.
pub uninterp spec fn pattern_is_valid(pattern: Seq<char>) -> bool;

/// What the first match of a pattern in a text captures under the given
/// group names, as `Regex::captures` of the `regex` crate finds it: nothing
/// where the pattern does not match; else, for each name in turn, the text of
/// that group, or nothing where the pattern has no such group or the group
/// took no part in the match.
pub uninterp spec fn named_captures(
    pattern: Seq<char>,
    haystack: Seq<char>,
    names: Seq<Seq<char>>,
) -> Option<Seq<Option<Seq<char>>>>;

/// Matches a pattern against a text and hands out the groups of the given
/// names.
///
/// Trusted: the body compiles the pattern with `Regex::new`, searches with
/// `Regex::captures` and reads each group with `Captures::name` and
/// `Match::as_str`. The contract claims that the pattern alone decides
/// whether compiling fails; that pattern, text and names alone decide what is
/// captured; and that there is one entry for each name. What the groups hold
/// is not taken on trust: the caller checks it against the text.
#[verifier::external_body]
pub(crate) fn capture_named(pattern: &str, haystack: &str, names: &Vec<String>) -> (r: Result<
    Option<Vec<Option<String>>>,
    regex::Error,
>)
    ensures
        r is Ok <==> pattern_is_valid(pattern@),
        r is Ok ==> r->Ok_0.deep_view() == named_captures(
            pattern@,
            haystack@,
            names.deep_view(),
        ),
        r is Ok && r->Ok_0 is Some ==> r->Ok_0->Some_0.len() == names.len(),
{
    let re = regex::Regex::new(pattern)?;
    Ok(
        re.captures(haystack).map(
            |caps| names.iter().map(|n| caps.name(n).map(|m| m.as_str().to_string())).collect(),
        ),
    )
}

/// The pattern of a remote URL: the host, a colon or a slash, an owner
/// without a slash, a slash, a repository name without a slash that is as
/// short as the rest allows, and at the end of the text an optional `.git`.
pub open spec fn github_url_pattern() -> Seq<char> {
    "github\\.com[:/](?P<owner>[^/]+)/(?P<repo>[^/]+?)(?:\\.git)?$"@
}

/// The names of the two groups of the pattern.
pub open spec fn github_url_groups() -> Seq<Seq<char>> {
    seq!["owner"@, "repo"@]
}

/// The owner and name that the captured groups give, or the failure that
/// their absence stands for.
pub open spec fn repo_info_of(groups: Option<Seq<Option<Seq<char>>>>) -> Result<
    GitRepoInfoView,
    EngineError,
> {
    match groups {
        None => Err(EngineError::InvalidGithubUrl),
        Some(g) => if g.len() < 1 || g[0] is None {
            Err(EngineError::OwnerNotFound)
        } else if g.len() < 2 || g[1] is None {
            Err(EngineError::RepoNameNotFound)
        } else {
            Ok(GitRepoInfoView { owner: g[0]->Some_0, repo: g[1]->Some_0 })
        },
    }
}

/// Whether a text ends in `.git`.
pub open spec fn ends_in_git(text: Seq<char>) -> bool {
    text.len() >= ".git"@.len() && stands_at(".git"@, text, text.len() - ".git"@.len())
}

/// The repository name that the last segment of a URL stands for: the
/// segment without one trailing `.git`. What is left is a name only if it is
/// not empty and does not itself end in `.git`; so neither `.git` nor
/// `tool.git.git` stands for a name.
pub open spec fn repo_name_of(segment: Seq<char>) -> Option<Seq<char>> {
    let stem = if ends_in_git(segment) {
        segment.take(segment.len() - ".git"@.len())
    } else {
        segment
    };
    if stem.len() == 0 || ends_in_git(stem) {
        None
    } else {
        Some(stem)
    }
}

/// Whether a URL ends in the host, a colon or a slash, the owner, a slash
/// and the repository name, followed by `.git` or not, as `dotgit` says.
/// Owner and name hold no slash, and neither is empty.
pub open spec fn reads_as(url: Seq<char>, owner: Seq<char>, repo: Seq<char>, dotgit: bool) -> bool {
    let host = "github.com"@;
    let suffix = if dotgit {
        ".git"@
    } else {
        Seq::empty()
    };
    let start = url.len() - suffix.len() - repo.len() - 1 - owner.len() - 1 - host.len();
    &&& start >= 0
    &&& stands_at(host, url, start)
    &&& (url[start + host.len()] == ':' || url[start + host.len()] == '/')
    &&& stands_at(owner, url, start + host.len() + 1)
    &&& url[start + host.len() + 1 + owner.len()] == '/'
    &&& stands_at(repo, url, start + host.len() + 2 + owner.len())
    &&& stands_at(suffix, url, url.len() - suffix.len())
    &&& owner.len() > 0
    &&& !owner.contains('/')
    &&& repo.len() > 0
    &&& !repo.contains('/')
}

/// Whether owner and name are what a URL of a hosted repository ends in,
/// with or without a trailing `.git`. The name may hold dots, but it never
/// ends in `.git`: of a URL that ends in `.git`, that suffix is no part of
/// the name.
pub open spec fn is_github_remote(url: Seq<char>, owner: Seq<char>, repo: Seq<char>) -> bool {
    !ends_in_git(repo) && (reads_as(url, owner, repo, true) || reads_as(url, owner, repo, false))
}

/// The last segment of a URL that reads as owner and name: the name, with
/// `.git` behind it where the URL is read with that suffix.
pub open spec fn last_segment(url: Seq<char>, owner: Seq<char>, repo: Seq<char>) -> Seq<char> {
    if reads_as(url, owner, repo, true) {
        repo + ".git"@
    } else {
        repo
    }
}

/// The name is what stands behind the last slash of the URL, without one
/// trailing `.git`.
pub proof fn lemma_name_is_last_segment(url: Seq<char>, owner: Seq<char>, repo: Seq<char>)
    requires
        is_github_remote(url, owner, repo),
    ensures
        ({
            let segment = last_segment(url, owner, repo);
            &&& 0 < segment.len() < url.len()
            &&& url.skip(url.len() - segment.len()) == segment
            &&& url[url.len() - segment.len() - 1] == '/'
            &&& !segment.contains('/')
            &&& repo_name_of(segment) == Some(repo)
        }),
{
    reveal_strlit(".git");
    let segment = last_segment(url, owner, repo);
    let git = ".git"@;
    if reads_as(url, owner, repo, true) {
        assert(segment.subrange(segment.len() - git.len(), segment.len() as int) =~= git);
        assert(segment.take(segment.len() - git.len()) =~= repo);
        let at = url.len() - segment.len();
        assert(url.subrange(at, at + repo.len()) == repo);
        assert(url.subrange(url.len() - git.len(), url.len() as int) == git);
        assert(url.skip(at) =~= segment);
        assert forall|i: int| 0 <= i < segment.len() implies segment[i] != '/' by {
            if i < repo.len() {
                assert(repo.contains(repo[i]));
            }
        }
    } else {
        let at = url.len() - segment.len();
        assert(url.subrange(at, at + repo.len()) == repo);
        assert(url.skip(at) =~= segment);
    }
}

/// The URL alone decides the name: two readings of one URL give one name.
pub proof fn lemma_name_is_decided_by_url(
    url: Seq<char>,
    owner: Seq<char>,
    repo: Seq<char>,
    other_owner: Seq<char>,
    other_repo: Seq<char>,
)
    requires
        is_github_remote(url, owner, repo),
        is_github_remote(url, other_owner, other_repo),
    ensures
        repo == other_repo,
{
    lemma_name_is_last_segment(url, owner, repo);
    lemma_name_is_last_segment(url, other_owner, other_repo);
    let a = last_segment(url, owner, repo);
    let b = last_segment(url, other_owner, other_repo);
    if a.len() < b.len() {
        let slash = url.len() - a.len() - 1;
        let inside = slash - (url.len() - b.len());
        assert(url.skip(url.len() - b.len())[inside] == '/');
        assert(b.contains(b[inside]));
    } else if b.len() < a.len() {
        let slash = url.len() - b.len() - 1;
        let inside = slash - (url.len() - a.len());
        assert(url.skip(url.len() - a.len())[inside] == '/');
        assert(a.contains(a[inside]));
    }
}

proof fn lemma_git_holds_no_slash(text: Seq<char>, i: int)
    requires
        ends_in_git(text),
        text.len() - ".git"@.len() <= i < text.len(),
    ensures
        text[i] != '/',
{
    reveal_strlit(".git");
    let git = ".git"@;
    let at = text.len() - git.len();
    assert(text.subrange(at, at + git.len())[i - at] == git[i - at]);
}

proof fn lemma_tail_ends_in_git(text: Seq<char>, tail: Seq<char>)
    requires
        ends_in_git(text),
        tail.len() >= ".git"@.len(),
        stands_at(tail, text, text.len() - tail.len()),
    ensures
        ends_in_git(tail),
{
    let git = ".git"@;
    let at = text.len() - tail.len();
    assert(tail.subrange(tail.len() - git.len(), tail.len() as int) =~= text.subrange(
        at,
        at + tail.len(),
    ).subrange(tail.len() - git.len(), tail.len() as int));
    assert(text.subrange(at, at + tail.len()).subrange(
        tail.len() - git.len(),
        tail.len() as int,
    ) =~= text.subrange(text.len() - git.len(), text.len() as int));
}

/// A URL whose last segment is `.git`, or ends in `.git.git`, names no
/// repository: after one `.git` is taken off, nothing is left, or what is
/// left still ends in `.git`.
pub proof fn lemma_git_alone_is_no_name(url: Seq<char>, owner: Seq<char>, repo: Seq<char>)
    requires
        ends_in_git(url),
        ({
            let rest = url.take(url.len() - ".git"@.len());
            ends_in_git(rest) || (rest.len() > 0 && rest.last() == '/')
        }),
    ensures
        !is_github_remote(url, owner, repo),
{
    reveal_strlit(".git");
    let git = ".git"@;
    let rest = url.take(url.len() - git.len());
    if is_github_remote(url, owner, repo) {
        if reads_as(url, owner, repo, true) {
            let at = rest.len() - repo.len();
            assert(url.subrange(at, at + repo.len()) =~= rest.subrange(at, at + repo.len()));
            assert(url[at - 1] == rest[at - 1]);
            if ends_in_git(rest) {
                if repo.len() >= git.len() {
                    lemma_tail_ends_in_git(rest, repo);
                } else {
                    lemma_git_holds_no_slash(rest, at - 1);
                }
            } else {
                assert(rest.subrange(at, at + repo.len())[repo.len() - 1] == rest.last());
                assert(repo.contains(repo[repo.len() - 1]));
            }
        } else {
            let at = url.len() - repo.len();
            if repo.len() >= git.len() {
                lemma_tail_ends_in_git(url, repo);
            } else {
                lemma_git_holds_no_slash(url, at - 1);
            }
        }
    }
}

/// What a remote URL is read as: what the match of the URL pattern gives,
/// provided the URL does end in that owner and name.
pub open spec fn parsed_github_url(url: Seq<char>) -> Result<GitRepoInfoView, EngineError> {
    if pattern_is_valid(github_url_pattern()) {
        match repo_info_of(named_captures(github_url_pattern(), url, github_url_groups())) {
            Ok(info) => if is_github_remote(url, info.owner, info.repo) {
                Ok(info)
            } else {
                Err(EngineError::InvalidGithubUrl)
            },
            Err(e) => Err(e),
        }
    } else {
        Err(EngineError::InvalidPattern)
    }
}

/// What the repository's remote is read as.
pub open spec fn repo_info(repo: RepoView) -> Result<GitRepoInfoView, EngineError> {
    match repo.origin {
        None => Err(EngineError::RemoteNotFound),
        Some(remote) => match remote.url {
            None => Err(EngineError::RemoteUrlNotFound),
            Some(url) => parsed_github_url(url),
        },
    }
}

/// Reads owner and repository name off the groups that a match of the URL
/// pattern captured: a missing match is an invalid URL, a missing group is
/// reported by its name.
pub fn repo_info_from_captures(groups: Option<Vec<Option<String>>>) -> (r: Result<
    GitRepoInfo,
    EngineError,
>)
    ensures
        viewed(r) == repo_info_of(groups.deep_view()),
{
    match groups {
        None => Err(EngineError::InvalidGithubUrl),
        Some(g) => {
            if g.len() < 1 {
                return Err(EngineError::OwnerNotFound);
            }
            let owner = match &g[0] {
                Some(o) => o.clone(),
                None => {
                    return Err(EngineError::OwnerNotFound);
                },
            };
            if g.len() < 2 {
                return Err(EngineError::RepoNameNotFound);
            }
            let repo = match &g[1] {
                Some(n) => n.clone(),
                None => {
                    return Err(EngineError::RepoNameNotFound);
                },
            };
            Ok(GitRepoInfo { owner, repo })
        },
    }
}

fn reads_with_suffix(url: &str, owner: &str, repo: &str, dotgit: bool) -> (b: bool)
    ensures
        b == reads_as(url@, owner@, repo@, dotgit),
{
    let host = "github.com";
    let suffix = if dotgit {
        ".git"
    } else {
        ""
    };
    proof {
        if !dotgit {
            reveal_strlit("");
            assert(""@ =~= Seq::<char>::empty());
        }
    }
    let owner_len = owner.unicode_len();
    let repo_len = repo.unicode_len();
    let host_len = host.unicode_len();
    let suffix_len = suffix.unicode_len();
    let mut rest = url.unicode_len();
    if rest < suffix_len {
        return false;
    }
    rest = rest - suffix_len;
    let suffix_at = rest;
    if rest < repo_len {
        return false;
    }
    rest = rest - repo_len;
    let repo_at = rest;
    if rest < 1 {
        return false;
    }
    rest = rest - 1;
    let slash_at = rest;
    if rest < owner_len {
        return false;
    }
    rest = rest - owner_len;
    let owner_at = rest;
    if rest < 1 {
        return false;
    }
    rest = rest - 1;
    let sep_at = rest;
    if rest < host_len {
        return false;
    }
    let start = rest - host_len;
    let sep = url.get_char(sep_at);
    assert(start == url@.len() - suffix@.len() - repo@.len() - 1 - owner@.len() - 1 - host@.len());
    text_at(url, start, host) && (sep == ':' || sep == '/') && text_at(url, owner_at, owner)
        && url.get_char(slash_at) == '/' && text_at(url, repo_at, repo) && text_at(
        url,
        suffix_at,
        suffix,
    ) && owner_len > 0 && !has_char(owner, '/') && repo_len > 0 && !has_char(repo, '/')
}

fn has_git_suffix(text: &str) -> (b: bool)
    ensures
        b == ends_in_git(text@),
{
    let n = text.unicode_len();
    let m = ".git".unicode_len();
    n >= m && text_at(text, n - m, ".git")
}

/// Tells whether owner and name are what the URL of a hosted repository
/// ends in, with or without a trailing `.git`, the name itself not ending in
/// `.git`.
pub fn is_remote_of(url: &str, owner: &str, repo: &str) -> (b: bool)
    ensures
        b == is_github_remote(url@, owner@, repo@),
{
    !has_git_suffix(repo) && (reads_with_suffix(url, owner, repo, true) || reads_with_suffix(
        url,
        owner,
        repo,
        false,
    ))
}

/// Reads owner and repository name off a remote URL such as
/// `git@github.com:owner/name.git` or `https://github.com/owner/name`.
///
/// The name is the last segment of the URL without one trailing `.git`; it
/// may hold dots, so `hello.world.git` is read as `hello.world`. A name is
/// never empty and never ends in `.git`: a URL whose last segment is `.git`
/// or ends in `.git.git` is refused. The pattern matcher proposes owner and
/// name, and they are taken only where the URL does end in them: whatever
/// comes out is what the URL says.
pub fn parse_github_url(url: &str) -> (r: Result<GitRepoInfo, EngineError>)
    ensures
        viewed(r) == parsed_github_url(url@),
        r is Ok ==> is_github_remote(url@, r->Ok_0.owner@, r->Ok_0.repo@),
        r is Ok ==> r->Ok_0.owner@.len() > 0 && !r->Ok_0.owner@.contains('/'),
        r is Ok ==> r->Ok_0.repo@.len() > 0 && !r->Ok_0.repo@.contains('/') && !ends_in_git(
            r->Ok_0.repo@,
        ),
{
    let mut names: Vec<String> = Vec::new();
    names.push(String::from_str("owner"));
    names.push(String::from_str("repo"));
    assert(names.deep_view() =~= github_url_groups());
    let pattern = "github\\.com[:/](?P<owner>[^/]+)/(?P<repo>[^/]+?)(?:\\.git)?$";
    match capture_named(pattern, url, &names) {
        Err(_) => Err(EngineError::InvalidPattern),
        Ok(groups) => match repo_info_from_captures(groups) {
            Ok(info) => {
                if is_remote_of(url, info.owner.as_str(), info.repo.as_str()) {
                    Ok(info)
                } else {
                    Err(EngineError::InvalidGithubUrl)
                }
            },
            Err(e) => Err(e),
        },
    }
}

/// Reads owner and repository name off the URL of the remote `origin`.
pub fn get_repo_info(repo: &RepoSnapshot) -> (r: Result<GitRepoInfo, EngineError>)
    ensures
        viewed(r) == repo_info(repo@),
{
    match &repo.origin {
        None => Err(EngineError::RemoteNotFound),
        Some(remote) => match &remote.url {
            None => Err(EngineError::RemoteUrlNotFound),
            Some(url) => parse_github_url(url.as_str()),
        },
    }
}

/// How the client of the code-review service is built.
#[derive(Debug, Clone, PartialEq, Eq)]
pub enum ClientSetup {
    /// Without credentials, at the lower rate limit.
    Anonymous,
    /// With a personal access token; the rate limit is then asked for, which
    /// shows whether the token is accepted.
    WithToken(String),
}

/// What a [`ClientSetup`] holds, as mathematical values.
pub enum ClientSetupView {
    Anonymous,
    WithToken(Seq<char>),
}

impl View for ClientSetup {
    type V = ClientSetupView;

    open spec fn view(&self) -> ClientSetupView {
        match self {
            ClientSetup::Anonymous => ClientSetupView::Anonymous,
            ClientSetup::WithToken(t) => ClientSetupView::WithToken(t@),
        }
    }
}

/// The line that reports how much of the rate limit is used.
pub open spec fn rate_limit_text(used: nat, limit: nat) -> Seq<char> {
    "GitHub API rate limit: "@ + decimal(used) + "/"@ + decimal(limit) + "."@
}

/// The text of the failure to read the rate limit.
pub open spec fn rate_limit_failure_text(cause: Seq<char>) -> Seq<char> {
    "Failed to get rate limit info: "@ + cause
        + ". GitHub Personal Access Token might be invalid."@
}

/// What follows the answer to the question for the rate limit: the line
/// that reports it, or the failure, which a token that is not accepted brings
/// about.
pub open spec fn rate_limit_outcome(answer: Result<(u64, u64), Seq<char>>) -> Result<
    Seq<char>,
    Seq<char>,
> {
    match answer {
        Ok((used, limit)) => Ok(rate_limit_text(used as nat, limit as nat)),
        Err(cause) => Err(rate_limit_failure_text(cause)),
    }
}

/// Decides how the client is built: with the token where one is given,
/// else without credentials.
pub fn setup_octocrab(token: Option<String>) -> (setup: ClientSetup)
    ensures
        setup@ == match token {
            Some(t) => ClientSetupView::WithToken(t@),
            None => ClientSetupView::Anonymous,
        },
{
    match token {
        Some(t) => ClientSetup::WithToken(t),
        None => ClientSetup::Anonymous,
    }
}

/// The line that reports how much of the rate limit is used.
pub fn rate_limit_notice(used: u64, limit: u64) -> (line: String)
    ensures
        line@ == rate_limit_text(used as nat, limit as nat),
{
    let mut line = String::from_str("GitHub API rate limit: ");
    line.append(decimal_string(used).as_str());
    line.append("/");
    line.append(decimal_string(limit).as_str());
    line.append(".");
    line
}

/// Reads the answer to the question for the rate limit, which is asked
/// once a client with a token is built: how much is used of how much, or why
/// the question failed. A failure ends the setup, with a text that points at
/// the token.
pub fn check_rate_limit(answer: Result<(u64, u64), String>) -> (r: Result<String, String>)
    ensures
        match answer {
            Ok((used, limit)) => r is Ok && r->Ok_0@ == rate_limit_text(used as nat, limit as nat),
            Err(cause) => r is Err && r->Err_0@ == rate_limit_failure_text(cause@),
        },
{
    match answer {
        Ok((used, limit)) => Ok(rate_limit_notice(used, limit)),
        Err(cause) => Err(rate_limit_failure(cause.as_str())),
    }
}

/// The text of the failure to read the rate limit, which a token that is
/// not accepted brings about.
pub fn rate_limit_failure(cause: &str) -> (line: String)
    ensures
        line@ == rate_limit_failure_text(cause@),
{
    let mut line = String::from_str("Failed to get rate limit info: ");
    line.append(cause);
    line.append(". GitHub Personal Access Token might be invalid.");
    line
}

} // verus!
