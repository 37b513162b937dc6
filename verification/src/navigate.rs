//! Switching to a workspace: resolving what the user named, or asking the
//! picker, and writing the directive for the shell.

use vstd::prelude::*;
use crate::branch::{branch_exists_by_name, get_branches, listed_branches};
use crate::error::{viewed, EngineError};
use crate::order::{first_index, is_first_at, lemma_first_index};
use crate::repo::{branch_names, distinct, worktree_names, BranchInfoView, BranchKind, FileState,
    RepoSnapshot, RepoView, StatusView, WorktreeEntry, WorktreeView};
use crate::selector::{final_key_outcome, handle_final_key, offer, offer_lines, FuzzyPrompt,
    FuzzyPromptView, SelectionResult, SelectionView};
use crate::text::push_char;
use crate::worktree::{find_worktree, find_worktree_on, listed_worktrees, worktree_named,
    worktree_on_branch};
use crate::worktree_map::{get_worktree_branches, lemma_listed_paths, lemma_mapped_worktrees_exist,
    lemma_worktree_branch_entries, map_pairs, pair_views, worktree_branch_entries};

verus! {

/// What a request to switch comes to: the directive itself, or a question
/// for the picker.
#[derive(Debug, Clone, PartialEq, Eq)]
pub enum Navigation {
    /// The line for the shell.
    Directive(String),
    /// The selection that has to be shown first.
    Prompt(FuzzyPrompt),
}

/// What a [`Navigation`] holds, as mathematical values.
pub enum NavigationView {
    Directive(Seq<char>),
    Prompt(FuzzyPromptView),
}

impl View for Navigation {
    type V = NavigationView;

    open spec fn view(&self) -> NavigationView {
        match self {
            Navigation::Directive(d) => NavigationView::Directive(d@),
            Navigation::Prompt(p) => NavigationView::Prompt(p@),
        }
    }
}

/// The mark that stands in front of a branch name in a picker line.
pub open spec fn branch_icon() -> Seq<char> {
    seq!['\u{ee}', '\u{201a}', '\u{a0}']
}

/// The picker line of a worktree: its name, and where the branch in it has
/// another name, an arrow, the mark and the branch.
pub open spec fn display_line(workspace: Seq<char>, branch: Seq<char>) -> Seq<char> {
    if workspace == branch {
        workspace
    } else {
        workspace + " -> "@ + branch_icon() + branch
    }
}

/// The picker lines of a list of worktrees with their branches.
pub open spec fn display_lines(entries: Seq<(Seq<char>, Seq<char>)>) -> Seq<Seq<char>> {
    Seq::new(entries.len(), |i: int| display_line(entries[i].0, entries[i].1))
}

/// The directive that changes into a directory.
pub open spec fn cd_directive(path: Seq<char>) -> Seq<char> {
    "cd "@ + path
}

/// The directive that checks a branch out.
pub open spec fn checkout_directive(branch: Seq<char>) -> Seq<char> {
    "git checkout "@ + branch
}

/// Whether the status lists a change to a file under version control.
pub open spec fn tracked_changes(statuses: Seq<StatusView>) -> bool {
    exists|i: int| 0 <= i < statuses.len() && (#[trigger] statuses[i]).state == FileState::Changed
}

/// The worktree that the arguments name: the worktree of the worktree
/// argument if there is one of that name; else the first worktree that has
/// the branch argument checked out, if that is a local branch.
pub open spec fn worktree_from_args(
    repo: RepoView,
    branch_arg: Option<Seq<char>>,
    worktree_arg: Option<Seq<char>>,
) -> Result<Option<WorktreeView>, EngineError> {
    match worktree_arg {
        Some(w) => Ok(worktree_named(repo, w)),
        None => match branch_arg {
            Some(b) => if branch_names(repo.local_branches).contains(b) {
                match worktree_on_branch(repo, b) {
                    Some(w) => Ok(Some(w)),
                    None => Err(EngineError::NoWorktreeForBranch),
                }
            } else {
                Ok(None)
            },
            None => Ok(None),
        },
    }
}

/// What a request to switch worktrees comes to: the directive into the
/// worktree that the arguments name, or the listed worktrees put to the
/// picker.
pub open spec fn worktree_navigation(
    repo: RepoView,
    branch_arg: Option<Seq<char>>,
    worktree_arg: Option<Seq<char>>,
    query: Option<Seq<char>>,
) -> Result<NavigationView, EngineError> {
    match worktree_from_args(repo, branch_arg, worktree_arg) {
        Err(e) => Err(e),
        Ok(Some(w)) => Ok(NavigationView::Directive(cd_directive(w.path))),
        Ok(None) => match offer(
            display_lines(worktree_branch_entries(repo)),
            query,
            false,
            "Worktree branch"@,
            EngineError::WorkspaceNotSelected,
        ) {
            Ok(p) => Ok(NavigationView::Prompt(p)),
            Err(e) => Err(e),
        },
    }
}

/// The worktree that a picker line stands for: the worktree of the first
/// offered entry that is shown as this line.
pub open spec fn worktree_of_line(repo: RepoView, line: Seq<char>) -> Option<WorktreeView> {
    let entries = worktree_branch_entries(repo);
    match first_index(display_lines(entries), line) {
        Some(i) => worktree_named(repo, entries[i].0),
        None => None,
    }
}

/// The directive for what the user chose among the worktrees: it leads into
/// the worktree whose line was chosen, whatever its branch is called.
pub open spec fn selected_worktree_directive(repo: RepoView, out: SelectionView) -> Result<
    Seq<char>,
    EngineError,
> {
    match final_key_outcome(out) {
        Err(e) => Err(e),
        Ok(_) => match worktree_of_line(repo, out.selected_items[0]) {
            Some(w) => Ok(cd_directive(w.path)),
            None => Err(EngineError::WorktreeNotFound),
        },
    }
}

/// Accepting a line of the picker leads into the worktree of that line:
/// where the chosen line is the line of the `i`-th offered entry, and no
/// earlier entry is shown as the same line, the directive changes into the
/// directory of the worktree that the entry names, whatever the branch in it
/// is called.
pub proof fn lemma_accepted_line_leads_into_its_worktree(
    repo: RepoView,
    out: SelectionView,
    i: int,
)
    requires
        out.terminal_key == crate::selector::FinalKey::Accept,
        out.selected_items.len() > 0,
        is_first_at(display_lines(worktree_branch_entries(repo)), out.selected_items[0], i),
    ensures
        worktree_named(repo, worktree_branch_entries(repo)[i].0) is Some,
        selected_worktree_directive(repo, out) == Ok::<Seq<char>, EngineError>(
            cd_directive(worktree_named(repo, worktree_branch_entries(repo)[i].0)->Some_0.path),
        ),
{
    let entries = worktree_branch_entries(repo);
    lemma_mapped_worktrees_exist(repo);
    lemma_first_index(display_lines(entries), out.selected_items[0]);
    assert(worktree_named(repo, entries[i].0) is Some);
}

/// Where no two worktrees share a name, the `i`-th offered line is the line
/// of the `i`-th listed worktree, and accepting it leads into that worktree's
/// directory.
pub proof fn lemma_accepted_line_leads_into_listed_worktree(
    repo: RepoView,
    out: SelectionView,
    i: int,
)
    requires
        distinct(worktree_names(repo.worktrees)),
        out.terminal_key == crate::selector::FinalKey::Accept,
        out.selected_items.len() > 0,
        is_first_at(display_lines(worktree_branch_entries(repo)), out.selected_items[0], i),
    ensures
        0 <= i < listed_worktrees(repo).len(),
        selected_worktree_directive(repo, out) == Ok::<Seq<char>, EngineError>(
            cd_directive(listed_worktrees(repo)[i].filesystem_path),
        ),
{
    lemma_accepted_line_leads_into_its_worktree(repo, out, i);
    lemma_worktree_branch_entries(repo);
    lemma_listed_paths(repo);
}

/// What a request to switch is about: the worktree argument, else the
/// branch argument, else nothing.
pub open spec fn request_subject(
    branch_arg: Option<Seq<char>>,
    worktree_arg: Option<Seq<char>>,
) -> Seq<char> {
    match worktree_arg {
        Some(w) => w,
        None => match branch_arg {
            Some(b) => b,
            None => Seq::empty(),
        },
    }
}

/// What an answer of the picker is about: the first chosen line, or
/// nothing.
pub open spec fn selection_subject(out: SelectionView) -> Seq<char> {
    if out.selected_items.len() > 0 {
        out.selected_items[0]
    } else {
        Seq::empty()
    }
}

/// The names of a list of branches.
pub open spec fn info_names(list: Seq<BranchInfoView>) -> Seq<Seq<char>> {
    Seq::new(list.len(), |i: int| list[i].name)
}

/// What a request to switch branches in place comes to.
pub open spec fn branch_navigation(
    repo: RepoView,
    branch_arg: Option<Seq<char>>,
    query: Option<Seq<char>>,
) -> Result<NavigationView, EngineError> {
    if tracked_changes(repo.statuses) {
        Err(EngineError::DirtyWorkspace)
    } else if branch_arg is Some && branch_names(repo.local_branches).contains(branch_arg->Some_0) {
        Ok(NavigationView::Directive(checkout_directive(branch_arg->Some_0)))
    } else {
        match offer(
            info_names(listed_branches(repo.local_branches)),
            query,
            false,
            "Branch"@,
            EngineError::BranchNotSelected,
        ) {
            Ok(p) => Ok(NavigationView::Prompt(p)),
            Err(e) => Err(e),
        }
    }
}

/// The directive for what the user chose among the branches.
pub open spec fn selected_branch_directive(out: SelectionView) -> Result<Seq<char>, EngineError> {
    match final_key_outcome(out) {
        Err(e) => Err(e),
        Ok(_) => Ok(checkout_directive(out.selected_items[0])),
    }
}

/// Files that are not under version control make no difference to a branch
/// switch: with nothing but such files in the status, the request comes to
/// what it comes to with an empty status. A change to a tracked file always
/// refuses it.
pub proof fn lemma_only_tracked_changes_block(
    repo: RepoView,
    branch_arg: Option<Seq<char>>,
    query: Option<Seq<char>>,
)
    ensures
        tracked_changes(repo.statuses) ==> branch_navigation(repo, branch_arg, query) == Err::<
            NavigationView,
            EngineError,
        >(EngineError::DirtyWorkspace),
        (forall|i: int|
            0 <= i < repo.statuses.len() ==> (#[trigger] repo.statuses[i]).state
                == FileState::Untracked) ==> branch_navigation(repo, branch_arg, query)
            == branch_navigation(
            RepoView { statuses: Seq::empty(), ..repo },
            branch_arg,
            query,
        ),
{
}

/// Tells whether the working tree has no change to a tracked file. Files
/// that are not under version control do not count.
pub fn is_branch_clear(repo: &RepoSnapshot) -> (clear: bool)
    ensures
        clear == !tracked_changes(repo@.statuses),
{
    let mut i: usize = 0;
    while i < repo.statuses.len()
        invariant
            i <= repo.statuses.len(),
            forall|j: int|
                0 <= j < i ==> (#[trigger] repo@.statuses[j]).state != FileState::Changed,
        decreases repo.statuses.len() - i,
    {
        match repo.statuses[i].state {
            FileState::Changed => {
                assert(repo@.statuses[i as int].state == FileState::Changed);
                return false;
            },
            FileState::Untracked => {},
        }
        i = i + 1;
    }
    true
}

/// The picker line of a worktree and its branch.
pub fn worktree_item(workspace: &String, branch: &String) -> (line: String)
    ensures
        line@ == display_line(workspace@, branch@),
{
    if *workspace == *branch {
        workspace.clone()
    } else {
        let mut line = workspace.clone();
        line.append(" -> ");
        let ghost before = line@;
        push_char(&mut line, '\u{ee}');
        push_char(&mut line, '\u{201a}');
        push_char(&mut line, '\u{a0}');
        assert(line@ =~= before + branch_icon());
        line.append(branch.as_str());
        line
    }
}

/// The directive that changes into the directory of a worktree.
pub fn change_directory(path: &String) -> (d: String)
    ensures
        d@ == cd_directive(path@),
{
    let mut d = String::from_str("cd ");
    d.append(path.as_str());
    d
}

/// The directive that checks a branch out.
pub fn checkout(branch: &str) -> (d: String)
    ensures
        d@ == checkout_directive(branch@),
{
    let mut d = String::from_str("git checkout ");
    d.append(branch);
    d
}

fn worktree_lines(pairs: &Vec<(String, String)>) -> (lines: Vec<String>)
    ensures
        lines.deep_view() == display_lines(pair_views(pairs@)),
{
    let mut lines: Vec<String> = Vec::new();
    let mut i: usize = 0;
    while i < pairs.len()
        invariant
            i <= pairs.len(),
            lines.deep_view() =~= display_lines(pair_views(pairs@)).take(i as int),
        decreases pairs.len() - i,
    {
        let ghost before = lines.deep_view();
        let line = worktree_item(&pairs[i].0, &pairs[i].1);
        assert(line@ == display_lines(pair_views(pairs@))[i as int]);
        lines.push(line);
        assert(lines.deep_view() =~= before.push(line@));
        i = i + 1;
    }
    assert(lines.deep_view() =~= display_lines(pair_views(pairs@)));
    lines
}

fn cd_into(w: &WorktreeEntry) -> (r: Result<Navigation, EngineError>)
    ensures
        viewed(r) == Ok::<NavigationView, EngineError>(
            NavigationView::Directive(cd_directive(w@.path)),
        ),
{
    Ok(Navigation::Directive(change_directory(&w.path)))
}

/// Resolves a request to switch worktrees in a bare repository or a
/// worktree.
///
/// A worktree argument that names a worktree leads into that worktree. Else
/// a branch argument that names a local branch leads into the first worktree
/// that has it checked out. Else the listed worktrees are put to the picker,
/// and the answer goes to [`change_to_selected_worktree`].
pub fn change_branch_of_bare_or_worktree_repo(
    repo: &RepoSnapshot,
    branch_name_arg: &Option<String>,
    worktree_name_arg: &Option<String>,
    query: Option<String>,
) -> (r: Result<Navigation, EngineError>)
    ensures
        viewed(r) == worktree_navigation(
            repo@,
            branch_name_arg.deep_view(),
            worktree_name_arg.deep_view(),
            query.deep_view(),
        ),
{
    match worktree_name_arg {
        Some(w) => {
            if let Some(i) = find_worktree(&repo.worktrees, w) {
                return cd_into(&repo.worktrees[i]);
            }
        },
        None => match branch_name_arg {
            Some(b) => {
                if branch_exists_by_name(repo, b.as_str(), BranchKind::Local) {
                    return match find_worktree_on(&repo.worktrees, b) {
                        Some(i) => cd_into(&repo.worktrees[i]),
                        None => Err(EngineError::NoWorktreeForBranch),
                    };
                }
            },
            None => {},
        },
    }
    let map = get_worktree_branches(repo);
    let pairs = map_pairs(&map);
    let lines = worktree_lines(&pairs);
    match offer_lines(&lines, query, false, "Worktree branch", EngineError::WorkspaceNotSelected) {
        Ok(p) => Ok(Navigation::Prompt(p)),
        Err(e) => Err(e),
    }
}

/// Turns the picker's answer into the directive that leads into the
/// worktree whose line was chosen, whatever the branch in it is called. An
/// abort cancels; an empty selection is a failure; a line that was not
/// offered leads nowhere.
pub fn change_to_selected_worktree(repo: &RepoSnapshot, out: &SelectionResult) -> (r: Result<
    String,
    EngineError,
>)
    ensures
        viewed(r) == selected_worktree_directive(repo@, out@),
        out.terminal_key == crate::selector::FinalKey::Abort ==> r == Err::<String, EngineError>(
            EngineError::Aborted,
        ),
{
    match handle_final_key(out) {
        Err(e) => {
            return Err(e);
        },
        Ok(_) => {},
    }
    let first = &out.selected_items[0];
    assert(out@.selected_items[0] == first@);
    let map = get_worktree_branches(repo);
    let pairs = map_pairs(&map);
    let ghost lines = display_lines(pair_views(pairs@));
    let mut i: usize = 0;
    while i < pairs.len()
        invariant
            i <= pairs.len(),
            lines == display_lines(pair_views(pairs@)),
            pair_views(pairs@) == worktree_branch_entries(repo@),
            final_key_outcome(out@) is Ok,
            out.terminal_key == crate::selector::FinalKey::Accept,
            first@ == out@.selected_items[0],
            forall|j: int| 0 <= j < i ==> lines[j] != first@,
        decreases pairs.len() - i,
    {
        let line = worktree_item(&pairs[i].0, &pairs[i].1);
        assert(line@ == lines[i as int]);
        if line == *first {
            proof {
                assert(is_first_at(lines, first@, i as int));
                lemma_first_index(lines, first@);
                assert(worktree_branch_entries(repo@)[i as int].0 == pairs[i as int].0@);
            }
            return match find_worktree(&repo.worktrees, &pairs[i].0) {
                Some(k) => Ok(change_directory(&repo.worktrees[k].path)),
                None => Err(EngineError::WorktreeNotFound),
            };
        }
        i = i + 1;
    }
    proof {
        lemma_first_index(lines, first@);
    }
    Err(EngineError::WorktreeNotFound)
}

fn branch_lines(repo: &RepoSnapshot) -> (lines: Vec<String>)
    ensures
        lines.deep_view() == info_names(listed_branches(repo@.local_branches)),
{
    let list = get_branches(repo, BranchKind::Local);
    let mut lines: Vec<String> = Vec::new();
    let mut i: usize = 0;
    while i < list.len()
        invariant
            i <= list.len(),
            lines.deep_view() =~= info_names(list.deep_view()).take(i as int),
        decreases list.len() - i,
    {
        let ghost before = lines.deep_view();
        let line = list[i].name.clone();
        lines.push(line);
        assert(lines.deep_view() =~= before.push(list[i as int].name@));
        i = i + 1;
    }
    assert(lines.deep_view() =~= info_names(list.deep_view()));
    lines
}

/// Resolves a request to switch branches in a regular repository.
///
/// With a change to a tracked file the request is refused. Else a branch
/// argument that names a local branch is checked out. Else the local
/// branches are put to the picker, most recent first, and the answer goes to
/// [`change_to_selected_branch`].
pub fn change_branch_of_regular_repo(
    repo: &RepoSnapshot,
    branch_name_arg: &Option<String>,
    query: Option<String>,
) -> (r: Result<Navigation, EngineError>)
    ensures
        viewed(r) == branch_navigation(repo@, branch_name_arg.deep_view(), query.deep_view()),
        r == Err::<Navigation, EngineError>(EngineError::DirtyWorkspace) <==> tracked_changes(
            repo@.statuses,
        ),
{
    if !is_branch_clear(repo) {
        return Err(EngineError::DirtyWorkspace);
    }
    let named: Option<String> = match branch_name_arg {
        Some(b) => {
            if branch_exists_by_name(repo, b.as_str(), BranchKind::Local) {
                Some(b.clone())
            } else {
                None
            }
        },
        None => None,
    };
    match named {
        Some(b) => Ok(Navigation::Directive(checkout(b.as_str()))),
        None => {
            let lines = branch_lines(repo);
            match offer_lines(&lines, query, false, "Branch", EngineError::BranchNotSelected) {
                Ok(p) => Ok(Navigation::Prompt(p)),
                Err(e) => Err(e),
            }
        },
    }
}

/// The text of a failed request to switch, naming the worktree or branch
/// that was asked for.
pub fn describe_request_failure(
    e: EngineError,
    branch_name_arg: &Option<String>,
    worktree_name_arg: &Option<String>,
) -> (text: String)
    ensures
        text@ == e.spec_describe(
            request_subject(branch_name_arg.deep_view(), worktree_name_arg.deep_view()),
        ),
{
    match worktree_name_arg {
        Some(w) => e.describe(w.as_str()),
        None => match branch_name_arg {
            Some(b) => e.describe(b.as_str()),
            None => {
                proof {
                    reveal_strlit("");
                    assert(""@ =~= Seq::<char>::empty());
                }
                e.describe("")
            },
        },
    }
}

/// The text of a failed selection, naming the line that was chosen.
pub fn describe_selection_failure(e: EngineError, out: &SelectionResult) -> (text: String)
    ensures
        text@ == e.spec_describe(selection_subject(out@)),
{
    if out.selected_items.len() > 0 {
        let first = &out.selected_items[0];
        assert(out@.selected_items[0] == first@);
        e.describe(first.as_str())
    } else {
        proof {
            reveal_strlit("");
            assert(""@ =~= Seq::<char>::empty());
        }
        e.describe("")
    }
}

/// Turns the picker's answer into the directive that checks the chosen
/// branch out. An abort cancels; an empty selection is a failure.
pub fn change_to_selected_branch(out: &SelectionResult) -> (r: Result<String, EngineError>)
    ensures
        viewed(r) == selected_branch_directive(out@),
        out.terminal_key == crate::selector::FinalKey::Abort ==> r == Err::<String, EngineError>(
            EngineError::Aborted,
        ),
{
    match handle_final_key(out) {
        Err(e) => Err(e),
        Ok(_) => {
            let first = &out.selected_items[0];
            assert(out@.selected_items[0] == first@);
            Ok(checkout(first.as_str()))
        },
    }
}

} // verus!
