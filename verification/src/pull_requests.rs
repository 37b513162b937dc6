//! Pull requests as candidates for workspaces: which of them are offered,
//! which the user chose, and what is reported of each one that was
//! materialized.

use vstd::prelude::*;
use crate::creator::{add_workspace, addition_for, FetchOutcome, StorageAction, StorageActionView};
use crate::error::{viewed, EngineError};

use crate::repo::{copy_opt, AddKind, RepoSnapshot, RepoView};
use crate::selector::{final_key_outcome, handle_final_key, offer, offer_lines,
    FinalKey, FuzzyPrompt, FuzzyPromptView, SelectionResult, SelectionView};
use crate::text::{decimal, decimal_string};
use crate::worktree::{worktree_exists_by_branch_name, worktree_on_branch};

verus! {

/// Which pull requests are wanted.
#[derive(Debug, Clone, Copy, PartialEq, Eq, Structural)]
pub enum PRKind {
    /// Drafts only.
    Draft,
    /// Those that are no drafts.
    Open,
    /// All of them.
    All,
}

/// How many of the offered pull requests are taken.
#[derive(Debug, Clone, Copy, PartialEq, Eq, Structural)]
pub enum PrSelection {
    /// All that are offered, without asking.
    All,
    /// Those that the user marks.
    Multiple,
    /// The one that the user picks.
    Single,
}

/// The state in which pull requests are listed.
#[derive(Debug, Clone, Copy, PartialEq, Eq, Structural)]
pub enum PrState {
    Open,
    Closed,
    All,
}

/// A pull request as the code-review service reports it.
#[derive(Debug, Clone, PartialEq, Eq)]
pub struct PullRequestCandidate {
    pub number: u64,
    /// The branch name under which the source branch is published.
    pub head_ref: String,
    /// The address of the pull request's page, where the service gives one.
    pub url: Option<String>,
    /// Whether the pull request is a draft, where the service says so.
    pub is_draft: Option<bool>,
}

/// What a [`PullRequestCandidate`] holds, as mathematical values.
pub struct PullRequestView {
    pub number: u64,
    pub head_ref: Seq<char>,
    pub url: Option<Seq<char>>,
    pub is_draft: Option<bool>,
}

impl View for PullRequestCandidate {
    type V = PullRequestView;

    open spec fn view(&self) -> PullRequestView {
        PullRequestView {
            number: self.number,
            head_ref: self.head_ref@,
            url: self.url.deep_view(),
            is_draft: self.is_draft,
        }
    }
}

impl DeepView for PullRequestCandidate {
    type V = PullRequestView;

    open spec fn deep_view(&self) -> PullRequestView {
        self@
    }
}

/// What the selection among pull requests comes to: the pull requests
/// themselves, or a question for the picker.
#[derive(Debug, Clone, PartialEq, Eq)]
pub enum PrChoice {
    Chosen(Vec<PullRequestCandidate>),
    Ask(FuzzyPrompt),
}

/// What a [`PrChoice`] holds, as mathematical values.
pub enum PrChoiceView {
    Chosen(Seq<PullRequestView>),
    Ask(FuzzyPromptView),
}

impl View for PrChoice {
    type V = PrChoiceView;

    open spec fn view(&self) -> PrChoiceView {
        match self {
            PrChoice::Chosen(prs) => PrChoiceView::Chosen(prs.deep_view()),
            PrChoice::Ask(p) => PrChoiceView::Ask(p@),
        }
    }
}

/// The workspace of one pull request: what to report, and what has to be
/// done in the storage.
#[derive(Debug, Clone, PartialEq, Eq)]
pub struct PrWorkspace {
    /// The notice for the user; there is one only for a new workspace.
    pub notice: Option<String>,
    pub directive: String,
    pub kind: AddKind,
    pub action: StorageAction,
}

/// What a [`PrWorkspace`] holds, as mathematical values.
pub struct PrWorkspaceView {
    pub notice: Option<Seq<char>>,
    pub directive: Seq<char>,
    pub kind: AddKind,
    pub action: StorageActionView,
}

impl View for PrWorkspace {
    type V = PrWorkspaceView;

    open spec fn view(&self) -> PrWorkspaceView {
        PrWorkspaceView {
            notice: self.notice.deep_view(),
            directive: self.directive@,
            kind: self.kind,
            action: self.action@,
        }
    }
}

/// Whether a pull request is of the wanted kind. One of which the service
/// does not say whether it is a draft counts as none.
pub open spec fn kind_matches(pr: PullRequestView, kind: PRKind) -> bool {
    match kind {
        PRKind::All => true,
        PRKind::Draft => pr.is_draft == Some(true),
        PRKind::Open => pr.is_draft != Some(true),
    }
}

/// Whether a pull request is offered: it is of the wanted kind and no
/// worktree has its head branch checked out.
pub open spec fn is_offered(repo: RepoView, kind: PRKind) -> spec_fn(PullRequestView) -> bool {
    |pr: PullRequestView| kind_matches(pr, kind) && worktree_on_branch(repo, pr.head_ref) is None
}

/// The pull requests that are offered, in the order of the list.
pub open spec fn filtered_prs(prs: Seq<PullRequestView>, repo: RepoView, kind: PRKind) -> Seq<
    PullRequestView,
> {
    prs.filter(is_offered(repo, kind))
}

/// The head branches of a list of pull requests.
pub open spec fn head_refs(prs: Seq<PullRequestView>) -> Seq<Seq<char>> {
    Seq::new(prs.len(), |i: int| prs[i].head_ref)
}

/// Whether the head branch of a pull request is among the chosen lines.
pub open spec fn is_chosen(items: Seq<Seq<char>>) -> spec_fn(PullRequestView) -> bool {
    |pr: PullRequestView| items.contains(pr.head_ref)
}

/// What the selection comes to before anything is asked: all pull requests
/// where all are wanted; else the question for the picker about their head
/// branches, which fails where there is nothing to show.
pub open spec fn selection_step(prs: Seq<PullRequestView>, selection: PrSelection) -> Result<
    PrChoiceView,
    EngineError,
> {
    match selection {
        PrSelection::All => Ok(PrChoiceView::Chosen(prs)),
        _ => match offer(
            head_refs(prs),
            None,
            selection == PrSelection::Multiple,
            "PR branch"@,
            EngineError::NoPullRequests,
        ) {
            Ok(p) => Ok(PrChoiceView::Ask(p)),
            Err(e) => Err(e),
        },
    }
}

/// The pull requests that the picker's answer leaves: those whose head
/// branch is among the chosen lines.
pub open spec fn chosen_prs(prs: Seq<PullRequestView>, out: SelectionView) -> Result<
    Seq<PullRequestView>,
    EngineError,
> {
    match final_key_outcome(out) {
        Err(e) => Err(e),
        Ok(_) => Ok(prs.filter(is_chosen(out.selected_items))),
    }
}

/// The address that is reported for a pull request.
pub open spec fn url_text(pr: PullRequestView) -> Seq<char> {
    match pr.url {
        Some(u) => u,
        None => "URL not available"@,
    }
}

/// The notice for a new workspace: the number of the pull request, its
/// branch, its address and the directive, each on a line of its own.
pub open spec fn notice_text(
    number: nat,
    branch: Seq<char>,
    url: Seq<char>,
    goto: Seq<char>,
) -> Seq<char> {
    "Added workspace for PR #"@ + decimal(number) + ":\n            branch: "@ + branch
        + "\n            url: "@ + url + "\n            goto: "@ + goto + "\n\n            "@
}

/// The workspace of a pull request: that of its head branch, with a notice
/// where the workspace is new.
pub open spec fn pr_workspace(repo: RepoView, fetch: FetchOutcome, pr: PullRequestView) -> Result<
    PrWorkspaceView,
    EngineError,
> {
    match addition_for(repo, fetch, pr.head_ref) {
        Err(e) => Err(e),
        Ok(a) => Ok(
            PrWorkspaceView {
                notice: if a.kind == AddKind::Added {
                    Some(notice_text(pr.number as nat, pr.head_ref, url_text(pr), a.directive))
                } else {
                    None
                },
                directive: a.directive,
                kind: a.kind,
                action: a.action,
            },
        ),
    }
}

/// What is offered is what is listed, less the pull requests of another kind
/// and less those whose head branch a worktree has checked out, whatever
/// their kind; nothing else is dropped and nothing is added.
pub proof fn lemma_filtered_prs(prs: Seq<PullRequestView>, repo: RepoView, kind: PRKind)
    ensures
        filtered_prs(prs, repo, kind).len() <= prs.len(),
        forall|k: int|
            0 <= k < filtered_prs(prs, repo, kind).len() ==> {
                let pr = #[trigger] filtered_prs(prs, repo, kind)[k];
                &&& prs.contains(pr)
                &&& kind_matches(pr, kind)
                &&& worktree_on_branch(repo, pr.head_ref) is None
            },
        forall|i: int|
            0 <= i < prs.len() && kind_matches(#[trigger] prs[i], kind) && worktree_on_branch(
                repo,
                prs[i].head_ref,
            ) is None ==> filtered_prs(prs, repo, kind).contains(prs[i]),
        forall|i: int|
            0 <= i < prs.len() && worktree_on_branch(repo, (#[trigger] prs[i]).head_ref)
                is Some ==> !filtered_prs(prs, repo, kind).contains(prs[i]),
{
    let pred = is_offered(repo, kind);
    let kept = prs.filter(pred);
    prs.lemma_filter_len(pred);
    assert forall|k: int| 0 <= k < kept.len() implies {
        let pr = #[trigger] kept[k];
        &&& prs.contains(pr)
        &&& kind_matches(pr, kind)
        &&& worktree_on_branch(repo, pr.head_ref) is None
    } by {
        prs.lemma_filter_pred(pred, k);
        assert(kept.contains(kept[k]));
        prs.lemma_filter_contains_rev(pred, kept[k]);
    }
    assert forall|i: int|
        0 <= i < prs.len() && kind_matches(#[trigger] prs[i], kind) && worktree_on_branch(
            repo,
            prs[i].head_ref,
        ) is None implies kept.contains(prs[i]) by {
        assert(pred(prs[i]));
        prs.lemma_filter_contains(pred, i);
    }
    assert forall|i: int|
        0 <= i < prs.len() && worktree_on_branch(repo, (#[trigger] prs[i]).head_ref)
            is Some implies !kept.contains(prs[i]) by {
        if kept.contains(prs[i]) {
            let k = choose|k: int| 0 <= k < kept.len() && kept[k] == prs[i];
            prs.lemma_filter_pred(pred, k);
        }
    }
}

pub(crate) fn copy_pr(pr: &PullRequestCandidate) -> (r: PullRequestCandidate)
    ensures
        r@ == pr@,
{
    PullRequestCandidate {
        number: pr.number,
        head_ref: pr.head_ref.clone(),
        url: copy_opt(&pr.url),
        is_draft: pr.is_draft,
    }
}

/// Tells whether a pull request is of the wanted kind.
pub fn matches_pr_kind(pr: &PullRequestCandidate, pr_kind: PRKind) -> (b: bool)
    ensures
        b == kind_matches(pr@, pr_kind),
{
    let draft = match pr.is_draft {
        Some(d) => d,
        None => false,
    };
    match pr_kind {
        PRKind::All => true,
        PRKind::Draft => draft,
        PRKind::Open => !draft,
    }
}

/// Keeps the pull requests that are offered: those of the wanted kind whose
/// head branch no worktree has checked out. Local branches are not looked
/// at. The order stays.
pub fn filter_prs(prs: Vec<PullRequestCandidate>, repo: &RepoSnapshot, pr_kind: PRKind) -> (r: Vec<
    PullRequestCandidate,
>)
    ensures
        r.deep_view() == filtered_prs(prs.deep_view(), repo@, pr_kind),
        forall|k: int|
            0 <= k < r.len() ==> kind_matches(#[trigger] r[k]@, pr_kind) && worktree_on_branch(
                repo@,
                r[k]@.head_ref,
            ) is None,
{
    let ghost all = prs.deep_view();
    let ghost pred = is_offered(repo@, pr_kind);
    let mut out: Vec<PullRequestCandidate> = Vec::new();
    let mut i: usize = 0;
    assert(all.take(0) =~= Seq::<PullRequestView>::empty());
    proof {
        reveal(Seq::filter);
    }
    while i < prs.len()
        invariant
            i <= prs.len(),
            all == prs.deep_view(),
            pred == is_offered(repo@, pr_kind),
            out.deep_view() =~= all.take(i as int).filter(pred),
            forall|k: int|
                0 <= k < out.len() ==> kind_matches(#[trigger] out[k]@, pr_kind)
                    && worktree_on_branch(repo@, out[k]@.head_ref) is None,
        decreases prs.len() - i,
    {
        let pr = &prs[i];
        proof {
            assert(all.take(i as int + 1) =~= all.take(i as int).push(pr@));
            Seq::lemma_filter_push(all.take(i as int), pr@, pred);
        }
        let keep = matches_pr_kind(pr, pr_kind) && !worktree_exists_by_branch_name(
            repo,
            pr.head_ref.as_str(),
        );
        if keep {
            let ghost before = out.deep_view();
            let copy = copy_pr(pr);
            out.push(copy);
            assert(out.deep_view() =~= before.push(pr@));
        }
        i = i + 1;
    }
    assert(all.take(prs.len() as int) =~= all);
    out
}

fn head_ref_lines(prs: &Vec<PullRequestCandidate>) -> (lines: Vec<String>)
    ensures
        lines.deep_view() == head_refs(prs.deep_view()),
{
    let mut lines: Vec<String> = Vec::new();
    let mut i: usize = 0;
    while i < prs.len()
        invariant
            i <= prs.len(),
            lines.deep_view() =~= head_refs(prs.deep_view()).take(i as int),
        decreases prs.len() - i,
    {
        let ghost before = lines.deep_view();
        lines.push(prs[i].head_ref.clone());
        assert(lines.deep_view() =~= before.push(prs[i as int].head_ref@));
        i = i + 1;
    }
    assert(lines.deep_view() =~= head_refs(prs.deep_view()));
    lines
}

/// Starts the selection among the offered pull requests. Where all are
/// wanted they are handed back; else the picker is to be asked, with one
/// line for each head branch, and the answer goes to [`selected_prs`]. With
/// nothing to show the selection fails.
pub fn select_prs(prs: Vec<PullRequestCandidate>, pr_selection: PrSelection) -> (r: Result<
    PrChoice,
    EngineError,
>)
    ensures
        viewed(r) == selection_step(prs.deep_view(), pr_selection),
        pr_selection != PrSelection::All ==> (r is Err <==> prs.len() == 0 || (prs.len() == 1
            && prs[0].head_ref@.len() == 0)),
        r is Err ==> r == Err::<PrChoice, EngineError>(EngineError::NoPullRequests),
{
    match pr_selection {
        PrSelection::All => Ok(PrChoice::Chosen(prs)),
        _ => {
            let multi = match pr_selection {
                PrSelection::Multiple => true,
                _ => false,
            };
            let lines = head_ref_lines(&prs);
            match offer_lines(&lines, None, multi, "PR branch", EngineError::NoPullRequests) {
                Ok(p) => Ok(PrChoice::Ask(p)),
                Err(e) => Err(e),
            }
        },
    }
}

fn list_has(items: &Vec<String>, text: &String) -> (b: bool)
    ensures
        b == items.deep_view().contains(text@),
{
    let mut i: usize = 0;
    while i < items.len()
        invariant
            i <= items.len(),
            forall|j: int| 0 <= j < i ==> items.deep_view()[j] != text@,
        decreases items.len() - i,
    {
        if items[i] == *text {
            assert(items.deep_view()[i as int] == text@);
            return true;
        }
        i = i + 1;
    }
    false
}

/// Reads the picker's answer: an abort cancels, an accepted empty selection
/// is a failure, and else the pull requests stay whose head branch is among
/// the chosen lines.
pub fn selected_prs(prs: Vec<PullRequestCandidate>, out: &SelectionResult) -> (r: Result<
    Vec<PullRequestCandidate>,
    EngineError,
>)
    ensures
        match chosen_prs(prs.deep_view(), out@) {
            Ok(chosen) => r is Ok && r->Ok_0.deep_view() == chosen,
            Err(e) => r is Err && r->Err_0 == e,
        },
        out.terminal_key == FinalKey::Abort ==> r is Err && r->Err_0 == EngineError::Aborted,
{
    match handle_final_key(out) {
        Err(e) => {
            return Err(e);
        },
        Ok(_) => {},
    }
    let ghost all = prs.deep_view();
    let ghost pred = is_chosen(out@.selected_items);
    let mut kept: Vec<PullRequestCandidate> = Vec::new();
    let mut i: usize = 0;
    assert(all.take(0) =~= Seq::<PullRequestView>::empty());
    proof {
        reveal(Seq::filter);
    }
    while i < prs.len()
        invariant
            i <= prs.len(),
            all == prs.deep_view(),
            pred == is_chosen(out@.selected_items),
            kept.deep_view() =~= all.take(i as int).filter(pred),
        decreases prs.len() - i,
    {
        let pr = &prs[i];
        proof {
            assert(all.take(i as int + 1) =~= all.take(i as int).push(pr@));
            Seq::lemma_filter_push(all.take(i as int), pr@, pred);
        }
        if list_has(&out.selected_items, &pr.head_ref) {
            let ghost before = kept.deep_view();
            let copy = copy_pr(pr);
            kept.push(copy);
            assert(kept.deep_view() =~= before.push(pr@));
        }
        i = i + 1;
    }
    assert(all.take(prs.len() as int) =~= all);
    Ok(kept)
}

/// The notice for a new workspace.
pub fn workspace_notice(number: u64, branch: &str, url: &str, goto: &str) -> (text: String)
    ensures
        text@ == notice_text(number as nat, branch@, url@, goto@),
{
    let mut text = String::from_str("Added workspace for PR #");
    text.append(decimal_string(number).as_str());
    text.append(":\n            branch: ");
    text.append(branch);
    text.append("\n            url: ");
    text.append(url);
    text.append("\n            goto: ");
    text.append(goto);
    text.append("\n\n            ");
    text
}

/// Resolves the workspace of one pull request: a worktree or a branch for
/// its head branch, as the repository takes it. A notice is written only for
/// a workspace that is new.
pub fn create_branch_for_pull_request(
    repo: &RepoSnapshot,
    fetch: FetchOutcome,
    pr: &PullRequestCandidate,
) -> (r: Result<PrWorkspace, EngineError>)
    ensures
        viewed(r) == pr_workspace(repo@, fetch, pr@),
        r is Ok ==> (r->Ok_0.notice is Some <==> r->Ok_0.kind == AddKind::Added),
{
    let addition = match add_workspace(repo, fetch, pr.head_ref.as_str()) {
        Ok(a) => a,
        Err(e) => {
            return Err(e);
        },
    };
    let pr_url = match &pr.url {
        Some(u) => u.clone(),
        None => String::from_str("URL not available"),
    };
    let notice = match addition.kind {
        AddKind::Added => Some(
            workspace_notice(
                pr.number,
                pr.head_ref.as_str(),
                pr_url.as_str(),
                addition.directive.as_str(),
            ),
        ),
        AddKind::Existed => None,
    };
    Ok(
        PrWorkspace {
            notice,
            directive: addition.directive,
            kind: addition.kind,
            action: addition.action,
        },
    )
}

} // verus!
