//! Making workspaces for pull requests, step by step: list the pull
//! requests, keep those that are offered, let the user choose, materialize
//! the chosen ones side by side, and report.
//!
//! The engine decides; the caller talks to the service, shows the picker and
//! runs the tasks, and hands each result back as an event.

use vstd::prelude::*;
use crate::error::EngineError;
use crate::github::{get_repo_info, repo_info};
use crate::pull_requests::{chosen_prs, copy_pr, filter_prs, filtered_prs, select_prs,
    selected_prs, selection_step, PRKind, PrChoice, PrChoiceView, PrSelection, PrState,
    PullRequestCandidate, PullRequestView};
use crate::repo::{copy_opt, RepoSnapshot, RepoView};
use crate::selector::{FinalKey, FuzzyPrompt, FuzzyPromptView, SelectionResult, SelectionView};
use crate::text::{decimal, decimal_string, join, joined};

verus! {

/// What the user asked for.
#[derive(Debug, Clone, Copy, PartialEq, Eq, Structural)]
pub struct SyncConfig {
    pub state: PrState,
    pub kind: PRKind,
    pub selection: PrSelection,
}

/// How the task of one pull request ended.
#[derive(Debug, Clone, PartialEq, Eq)]
pub struct TaskReport {
    pub number: u64,
    pub head_ref: String,
    /// What went wrong, if anything did.
    pub failure: Option<String>,
}

/// What a [`TaskReport`] holds, as mathematical values.
pub struct TaskReportView {
    pub number: u64,
    pub head_ref: Seq<char>,
    pub failure: Option<Seq<char>>,
}

impl View for TaskReport {
    type V = TaskReportView;

    open spec fn view(&self) -> TaskReportView {
        TaskReportView {
            number: self.number,
            head_ref: self.head_ref@,
            failure: self.failure.deep_view(),
        }
    }
}

impl DeepView for TaskReport {
    type V = TaskReportView;

    open spec fn deep_view(&self) -> TaskReportView {
        self@
    }
}

/// What a batch of tasks came to.
#[derive(Debug, Clone, PartialEq, Eq)]
pub struct BatchSummary {
    /// How many tasks ended without a failure.
    pub succeeded: usize,
    /// The tasks that failed, in the order of the batch.
    pub failures: Vec<TaskReport>,
    /// The line for the log; there is one only where a task failed.
    pub log: Option<String>,
}

/// What a [`BatchSummary`] holds, as mathematical values.
pub struct BatchSummaryView {
    pub succeeded: nat,
    pub failures: Seq<TaskReportView>,
    pub log: Option<Seq<char>>,
}

impl View for BatchSummary {
    type V = BatchSummaryView;

    open spec fn view(&self) -> BatchSummaryView {
        BatchSummaryView {
            succeeded: self.succeeded as nat,
            failures: self.failures.deep_view(),
            log: self.log.deep_view(),
        }
    }
}

/// Where the synchronization stands.
#[derive(Debug, Clone, PartialEq, Eq)]
pub enum SyncState {
    /// Nothing has been done.
    Idle,
    /// The list of pull requests is awaited.
    Listing,
    /// The picker's answer on the offered pull requests is awaited.
    Selecting { offered: Vec<PullRequestCandidate> },
    /// The tasks are under way; their reports are awaited.
    Materializing { selected: Vec<PullRequestCandidate> },
    /// The synchronization is over.
    Done,
}

/// What a [`SyncState`] holds, as mathematical values.
pub enum SyncStateView {
    Idle,
    Listing,
    Selecting { offered: Seq<PullRequestView> },
    Materializing { selected: Seq<PullRequestView> },
    Done,
}

impl View for SyncState {
    type V = SyncStateView;

    open spec fn view(&self) -> SyncStateView {
        match self {
            SyncState::Idle => SyncStateView::Idle,
            SyncState::Listing => SyncStateView::Listing,
            SyncState::Selecting { offered } => SyncStateView::Selecting {
                offered: offered.deep_view(),
            },
            SyncState::Materializing { selected } => SyncStateView::Materializing {
                selected: selected.deep_view(),
            },
            SyncState::Done => SyncStateView::Done,
        }
    }
}

/// What the caller reports back.
#[derive(Debug, Clone, PartialEq, Eq)]
pub enum SyncEvent {
    /// The synchronization is asked for.
    Start,
    /// The service listed these pull requests.
    Listed(Vec<PullRequestCandidate>),
    /// The service could not be asked.
    ListingFailed,
    /// The picker ended with this answer.
    Picked(SelectionResult),
    /// All tasks have ended, with one report each, in the order in which the
    /// pull requests were handed over.
    Settled(Vec<TaskReport>),
}

/// What a [`SyncEvent`] holds, as mathematical values.
pub enum SyncEventView {
    Start,
    Listed(Seq<PullRequestView>),
    ListingFailed,
    Picked(SelectionView),
    Settled(Seq<TaskReportView>),
}

impl View for SyncEvent {
    type V = SyncEventView;

    open spec fn view(&self) -> SyncEventView {
        match self {
            SyncEvent::Start => SyncEventView::Start,
            SyncEvent::Listed(prs) => SyncEventView::Listed(prs.deep_view()),
            SyncEvent::ListingFailed => SyncEventView::ListingFailed,
            SyncEvent::Picked(out) => SyncEventView::Picked(out@),
            SyncEvent::Settled(reports) => SyncEventView::Settled(reports.deep_view()),
        }
    }
}

/// What the caller has to do next.
#[derive(Debug, Clone, PartialEq, Eq)]
pub enum SyncAction {
    /// Ask the service for the pull requests of a repository.
    ListPullRequests { owner: String, repo: String, state: PrState },
    /// Show the picker.
    Ask(FuzzyPrompt),
    /// Run one task for each of these pull requests, all side by side, and
    /// wait for all of them.
    Materialize(Vec<PullRequestCandidate>),
    /// Log the summary and end with success.
    Report(BatchSummary),
    /// End with this failure.
    Fail(EngineError),
    /// Nothing: the event does not belong to the state.
    Wait,
}

/// What a [`SyncAction`] holds, as mathematical values.
pub enum SyncActionView {
    ListPullRequests { owner: Seq<char>, repo: Seq<char>, state: PrState },
    Ask(FuzzyPromptView),
    Materialize(Seq<PullRequestView>),
    Report(BatchSummaryView),
    Fail(EngineError),
    Wait,
}

impl View for SyncAction {
    type V = SyncActionView;

    open spec fn view(&self) -> SyncActionView {
        match self {
            SyncAction::ListPullRequests { owner, repo, state } => {
                SyncActionView::ListPullRequests { owner: owner@, repo: repo@, state: *state }
            },
            SyncAction::Ask(p) => SyncActionView::Ask(p@),
            SyncAction::Materialize(prs) => SyncActionView::Materialize(prs.deep_view()),
            SyncAction::Report(s) => SyncActionView::Report(s@),
            SyncAction::Fail(e) => SyncActionView::Fail(*e),
            SyncAction::Wait => SyncActionView::Wait,
        }
    }
}

/// Whether a task failed.
pub open spec fn has_failed() -> spec_fn(TaskReportView) -> bool {
    |r: TaskReportView| r.failure is Some
}

/// The line that names a failed task: the number of the pull request, its
/// head branch and what went wrong.
pub open spec fn failure_line(r: TaskReportView) -> Seq<char> {
    "PR #"@ + decimal(r.number as nat) + " ("@ + r.head_ref + "): "@ + match r.failure {
        Some(m) => m,
        None => Seq::empty(),
    }
}

/// The lines of a list of failed tasks.
pub open spec fn failure_lines(failures: Seq<TaskReportView>) -> Seq<Seq<char>> {
    Seq::new(failures.len(), |i: int| failure_line(failures[i]))
}

/// The line for the log: all failures of the batch, or nothing where no task
/// failed.
pub open spec fn batch_log(failures: Seq<TaskReportView>) -> Option<Seq<char>> {
    if failures.len() == 0 {
        None
    } else {
        Some("Tasks failed: ["@ + joined(failure_lines(failures), ", "@) + "]"@)
    }
}

/// What a batch came to: the failed tasks in the order of the batch, the
/// number of the others, and the line for the log.
pub open spec fn batch_summary(reports: Seq<TaskReportView>) -> BatchSummaryView {
    BatchSummaryView {
        succeeded: (reports.len() - reports.filter(has_failed()).len()) as nat,
        failures: reports.filter(has_failed()),
        log: batch_log(reports.filter(has_failed())),
    }
}

/// The next state and the action for a state and an event.
pub open spec fn sync_next(
    repo: RepoView,
    config: SyncConfig,
    state: SyncStateView,
    event: SyncEventView,
) -> (SyncStateView, SyncActionView) {
    match (state, event) {
        (SyncStateView::Idle, SyncEventView::Start) => match repo_info(repo) {
            Ok(info) => (
                SyncStateView::Listing,
                SyncActionView::ListPullRequests {
                    owner: info.owner,
                    repo: info.repo,
                    state: config.state,
                },
            ),
            Err(e) => (SyncStateView::Done, SyncActionView::Fail(e)),
        },
        (SyncStateView::Listing, SyncEventView::ListingFailed) => (
            SyncStateView::Done,
            SyncActionView::Fail(EngineError::PullRequestsUnavailable),
        ),
        (SyncStateView::Listing, SyncEventView::Listed(prs)) => {
            let offered = filtered_prs(prs, repo, config.kind);
            match selection_step(offered, config.selection) {
                Ok(PrChoiceView::Chosen(c)) => (
                    SyncStateView::Materializing { selected: c },
                    SyncActionView::Materialize(c),
                ),
                Ok(PrChoiceView::Ask(p)) => (
                    SyncStateView::Selecting { offered: offered },
                    SyncActionView::Ask(p),
                ),
                Err(e) => (SyncStateView::Done, SyncActionView::Fail(e)),
            }
        },
        (SyncStateView::Selecting { offered }, SyncEventView::Picked(out)) => match chosen_prs(
            offered,
            out,
        ) {
            Ok(c) => (SyncStateView::Materializing { selected: c }, SyncActionView::Materialize(c)),
            Err(e) => (SyncStateView::Done, SyncActionView::Fail(e)),
        },
        (SyncStateView::Materializing { selected }, SyncEventView::Settled(reports)) => {
            if reports.len() == selected.len() {
                (SyncStateView::Done, SyncActionView::Report(batch_summary(reports)))
            } else {
                (state, SyncActionView::Wait)
            }
        },
        _ => (state, SyncActionView::Wait),
    }
}

fn copy_report(r: &TaskReport) -> (c: TaskReport)
    ensures
        c@ == r@,
{
    TaskReport { number: r.number, head_ref: r.head_ref.clone(), failure: copy_opt(&r.failure) }
}

fn copy_prs(prs: &Vec<PullRequestCandidate>) -> (c: Vec<PullRequestCandidate>)
    ensures
        c.deep_view() == prs.deep_view(),
{
    let mut out: Vec<PullRequestCandidate> = Vec::new();
    let mut i: usize = 0;
    while i < prs.len()
        invariant
            i <= prs.len(),
            out.deep_view() =~= prs.deep_view().take(i as int),
        decreases prs.len() - i,
    {
        let ghost before = out.deep_view();
        let copy = copy_pr(&prs[i]);
        out.push(copy);
        assert(out.deep_view() =~= before.push(prs[i as int]@));
        i = i + 1;
    }
    assert(prs.deep_view().take(prs.len() as int) =~= prs.deep_view());
    out
}

/// The line that names a failed task.
pub fn describe_failure(r: &TaskReport) -> (line: String)
    ensures
        line@ == failure_line(r@),
{
    let mut line = String::from_str("PR #");
    line.append(decimal_string(r.number).as_str());
    line.append(" (");
    line.append(r.head_ref.as_str());
    line.append("): ");
    match &r.failure {
        Some(m) => {
            line.append(m.as_str());
        },
        None => {
            assert(line@ + Seq::<char>::empty() =~= line@);
        },
    }
    line
}

/// Sums a batch up once every task has ended. A failed task never hides
/// the others: each failure is listed, in the order of the batch, and the
/// remaining tasks count as succeeded.
pub fn summarize(reports: &Vec<TaskReport>) -> (s: BatchSummary)
    ensures
        s@ == batch_summary(reports.deep_view()),
        s.succeeded + s.failures.len() == reports.len(),
        s.log is Some <==> s.failures.len() > 0,
{
    let ghost all = reports.deep_view();
    let ghost pred = has_failed();
    let mut failures: Vec<TaskReport> = Vec::new();
    let mut lines: Vec<String> = Vec::new();
    let mut succeeded: usize = 0;
    let mut i: usize = 0;
    assert(all.take(0) =~= Seq::<TaskReportView>::empty());
    proof {
        reveal(Seq::filter);
    }
    while i < reports.len()
        invariant
            i <= reports.len(),
            all == reports.deep_view(),
            pred == has_failed(),
            failures.deep_view() =~= all.take(i as int).filter(pred),
            lines.deep_view() =~= failure_lines(failures.deep_view()),
            succeeded + failures.len() == i,
        decreases reports.len() - i,
    {
        let r = &reports[i];
        proof {
            assert(all.take(i as int + 1) =~= all.take(i as int).push(r@));
            Seq::lemma_filter_push(all.take(i as int), r@, pred);
        }
        if r.failure.is_some() {
            let ghost before = failures.deep_view();
            let ghost lines_before = lines.deep_view();
            let line = describe_failure(r);
            failures.push(copy_report(r));
            lines.push(line);
            assert(failures.deep_view() =~= before.push(r@));
            assert(lines.deep_view() =~= lines_before.push(failure_line(r@)));
        } else {
            succeeded = succeeded + 1;
        }
        i = i + 1;
    }
    assert(all.take(reports.len() as int) =~= all);
    let log = if failures.len() == 0 {
        None
    } else {
        let mut text = String::from_str("Tasks failed: [");
        text.append(join(&lines, ", ").as_str());
        text.append("]");
        Some(text)
    };
    BatchSummary { succeeded, failures, log }
}

/// Takes the synchronization one step further: from a state and what the
/// caller reports to the next state and what the caller has to do.
///
/// The steps are: resolve owner and name of the hosted repository and ask
/// for its pull requests; keep the ones that are offered; take all of them or
/// ask the picker; hand the chosen ones over to be materialized side by side;
/// and, when every task has ended, sum up. A failure before the tasks start
/// ends the synchronization; a failure of a task does not. The summary is
/// made only of a full set of reports, one for each pull request that was
/// handed over.
pub fn add_workspace_by_pull_requests(
    repo: &RepoSnapshot,
    config: SyncConfig,
    state: SyncState,
    event: SyncEvent,
) -> (r: (SyncState, SyncAction))
    ensures
        (r.0@, r.1@) == sync_next(repo@, config, state@, event@),
        event matches SyncEvent::Picked(out) && out.terminal_key == FinalKey::Abort
            && state is Selecting ==> r.0 is Done && r.1 == SyncAction::Fail(EngineError::Aborted),
        event matches SyncEvent::Settled(reports) && state matches SyncState::Materializing {
            selected,
        } && reports.len() == selected.len() ==> r.0 is Done && r.1 is Report,
{
    match (state, event) {
        (SyncState::Idle, SyncEvent::Start) => match get_repo_info(repo) {
            Ok(info) => (
                SyncState::Listing,
                SyncAction::ListPullRequests {
                    owner: info.owner,
                    repo: info.repo,
                    state: config.state,
                },
            ),
            Err(e) => (SyncState::Done, SyncAction::Fail(e)),
        },
        (SyncState::Listing, SyncEvent::ListingFailed) => (
            SyncState::Done,
            SyncAction::Fail(EngineError::PullRequestsUnavailable),
        ),
        (SyncState::Listing, SyncEvent::Listed(prs)) => {
            let offered = filter_prs(prs, repo, config.kind);
            let kept = copy_prs(&offered);
            match select_prs(offered, config.selection) {
                Ok(PrChoice::Chosen(c)) => {
                    let selected = copy_prs(&c);
                    (SyncState::Materializing { selected }, SyncAction::Materialize(c))
                },
                Ok(PrChoice::Ask(p)) => {
                    (SyncState::Selecting { offered: kept }, SyncAction::Ask(p))
                },
                Err(e) => (SyncState::Done, SyncAction::Fail(e)),
            }
        },
        (SyncState::Selecting { offered }, SyncEvent::Picked(out)) => {
            match selected_prs(offered, &out) {
                Ok(c) => {
                    let selected = copy_prs(&c);
                    (SyncState::Materializing { selected }, SyncAction::Materialize(c))
                },
                Err(e) => (SyncState::Done, SyncAction::Fail(e)),
            }
        },
        (SyncState::Materializing { selected }, SyncEvent::Settled(reports)) => {
            if reports.len() == selected.len() {
                (SyncState::Done, SyncAction::Report(summarize(&reports)))
            } else {
                (SyncState::Materializing { selected }, SyncAction::Wait)
            }
        },
        (state, _) => (state, SyncAction::Wait),
    }
}

/// What a failure of the synchronization is about: the remote by its name
/// where it or its URL is missing; the remote's URL where that URL cannot be
/// read or the pull requests behind it cannot be had; else nothing.
pub open spec fn failure_subject(repo: RepoView, e: EngineError) -> Seq<char> {
    match e {
        EngineError::RemoteNotFound => "origin"@,
        EngineError::RemoteUrlNotFound => "origin"@,
        EngineError::InvalidGithubUrl => origin_url(repo),
        EngineError::OwnerNotFound => origin_url(repo),
        EngineError::RepoNameNotFound => origin_url(repo),
        EngineError::PullRequestsUnavailable => origin_url(repo),
        EngineError::NoPullRequests => origin_url(repo),
        _ => Seq::empty(),
    }
}

/// The URL of the remote, or nothing where there is none.
pub open spec fn origin_url(repo: RepoView) -> Seq<char> {
    match repo.origin {
        Some(remote) => match remote.url {
            Some(url) => url,
            None => Seq::empty(),
        },
        None => Seq::empty(),
    }
}

fn url_of_origin(repo: &RepoSnapshot) -> (url: String)
    ensures
        url@ == origin_url(repo@),
{
    match &repo.origin {
        Some(remote) => match &remote.url {
            Some(url) => url.clone(),
            None => String::new(),
        },
        None => String::new(),
    }
}

/// The text of a failure that ended the synchronization, naming the remote
/// or the hosted repository that it is about.
pub fn describe_sync_failure(repo: &RepoSnapshot, e: EngineError) -> (text: String)
    ensures
        text@ == e.spec_describe(failure_subject(repo@, e)),
{
    match e {
        EngineError::RemoteNotFound => e.describe("origin"),
        EngineError::RemoteUrlNotFound => e.describe("origin"),
        EngineError::InvalidGithubUrl => e.describe(url_of_origin(repo).as_str()),
        EngineError::OwnerNotFound => e.describe(url_of_origin(repo).as_str()),
        EngineError::RepoNameNotFound => e.describe(url_of_origin(repo).as_str()),
        EngineError::PullRequestsUnavailable => e.describe(url_of_origin(repo).as_str()),
        EngineError::NoPullRequests => e.describe(url_of_origin(repo).as_str()),
        _ => e.describe(String::new().as_str()),
    }
}

/// An abort key in the picker cancels the synchronization: it ends with the
/// cancellation, and no pull request is handed over to be materialized.
pub proof fn lemma_abort_creates_nothing(
    repo: RepoView,
    config: SyncConfig,
    offered: Seq<PullRequestView>,
    out: SelectionView,
)
    requires
        out.terminal_key == FinalKey::Abort,
    ensures
        sync_next(repo, config, SyncStateView::Selecting { offered }, SyncEventView::Picked(out))
            == (SyncStateView::Done, SyncActionView::Fail(EngineError::Aborted)),
{
}

/// Failed tasks do not fail the batch: once every task has reported,
/// whatever the reports say, the synchronization ends with a report, every
/// failed task is in it, and every other task counts as succeeded.
pub proof fn lemma_batch_reports_every_failure(
    repo: RepoView,
    config: SyncConfig,
    selected: Seq<PullRequestView>,
    reports: Seq<TaskReportView>,
)
    requires
        reports.len() == selected.len(),
    ensures
        sync_next(
            repo,
            config,
            SyncStateView::Materializing { selected },
            SyncEventView::Settled(reports),
        ) == (SyncStateView::Done, SyncActionView::Report(batch_summary(reports))),
        batch_summary(reports).succeeded + batch_summary(reports).failures.len() == reports.len(),
        forall|i: int|
            0 <= i < reports.len() && (#[trigger] reports[i]).failure is Some ==> batch_summary(
                reports,
            ).failures.contains(reports[i]),
        forall|k: int|
            0 <= k < batch_summary(reports).failures.len() ==> (#[trigger] batch_summary(
                reports,
            ).failures[k]).failure is Some && reports.contains(batch_summary(reports).failures[k]),
{
    let pred = has_failed();
    let failed = reports.filter(pred);
    reports.lemma_filter_len(pred);
    assert forall|i: int| 0 <= i < reports.len() && (#[trigger] reports[i]).failure
        is Some implies failed.contains(reports[i]) by {
        assert(pred(reports[i]));
        reports.lemma_filter_contains(pred, i);
    }
    assert forall|k: int| 0 <= k < failed.len() implies (#[trigger] failed[k]).failure is Some
        && reports.contains(failed[k]) by {
        reports.lemma_filter_pred(pred, k);
        assert(failed.contains(failed[k]));
        reports.lemma_filter_contains_rev(pred, failed[k]);
    }
}

/// With exactly one failed task in a batch, exactly that one is reported
/// and all the others count as succeeded.
pub proof fn lemma_single_failure(reports: Seq<TaskReportView>, bad: int)
    requires
        0 <= bad < reports.len(),
        forall|i: int| 0 <= i < reports.len() ==> ((#[trigger] reports[i]).failure is Some <==> i
            == bad),
    ensures
        batch_summary(reports).failures == seq![reports[bad]],
        batch_summary(reports).succeeded == reports.len() - 1,
        batch_summary(reports).log is Some,
{
    lemma_failures_of_prefix(reports, bad, reports.len() as int);
    assert(reports.take(reports.len() as int) =~= reports);
}

proof fn lemma_failures_of_prefix(reports: Seq<TaskReportView>, bad: int, n: int)
    requires
        0 <= bad < reports.len(),
        0 <= n <= reports.len(),
        forall|i: int| 0 <= i < reports.len() ==> ((#[trigger] reports[i]).failure is Some <==> i
            == bad),
    ensures
        reports.take(n).filter(has_failed()) == if n <= bad {
            Seq::<TaskReportView>::empty()
        } else {
            seq![reports[bad]]
        },
    decreases n,
{
    reveal(Seq::filter);
    let pred = has_failed();
    if n == 0 {
        assert(reports.take(0) =~= Seq::<TaskReportView>::empty());
    } else {
        lemma_failures_of_prefix(reports, bad, n - 1);
        assert(reports.take(n) =~= reports.take(n - 1).push(reports[n - 1]));
        Seq::lemma_filter_push(reports.take(n - 1), reports[n - 1], pred);
        if n - 1 == bad {
            assert(Seq::<TaskReportView>::empty().push(reports[bad]) =~= seq![reports[bad]]);
        }
    }
}

} // verus!
