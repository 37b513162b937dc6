use git_worktree_cli::error::{EngineError, ErrorClass};
use git_worktree_cli::navigate::{
    change_branch_of_bare_or_worktree_repo, change_branch_of_regular_repo,
    change_to_selected_branch, change_to_selected_worktree, checkout, change_directory,
    describe_request_failure, describe_selection_failure, is_branch_clear, worktree_item,
    Navigation,
};
use git_worktree_cli::repo::{
    file_state, BranchRecord, FileState, HeadCommit, RepoSnapshot, StatusEntry, WorktreeEntry,
    STATUS_IGNORED, STATUS_WT_NEW,
};
use git_worktree_cli::selector::{
    get_fuzzy_options, handle_final_key, offer_lines, FinalKey, FuzzyPrompt, SelectionResult,
};

const ICON: &str = "\u{ee}\u{201a}\u{a0}";

fn nav_branch(name: &str, head: &str, commit_time: i64) -> BranchRecord {
    BranchRecord { name: name.to_string(), head: head.to_string(), commit_time }
}

fn nav_worktree(name: &str, path: &str, branch: Option<&str>) -> WorktreeEntry {
    WorktreeEntry {
        name: name.to_string(),
        path: path.to_string(),
        branch: branch.map(|b| b.to_string()),
    }
}

fn nav_bare() -> RepoSnapshot {
    RepoSnapshot {
        is_bare: true,
        is_worktree: false,
        git_dir: "/srv/project/".to_string(),
        head: Some(HeadCommit { id: "aaaa".to_string(), time: 100 }),
        origin: None,
        local_branches: vec![
            nav_branch("main", "aaaa", 100),
            nav_branch("feature/login", "bbbb", 300),
            nav_branch("idle", "cccc", 50),
        ],
        remote_branches: vec![],
        worktrees: vec![
            nav_worktree("main", "/srv/project/main", Some("main")),
            nav_worktree("feature_login", "/srv/project/feature_login", Some("feature/login")),
        ],
        statuses: vec![],
    }
}

fn nav_regular(statuses: Vec<StatusEntry>) -> RepoSnapshot {
    RepoSnapshot {
        is_bare: false,
        is_worktree: false,
        git_dir: "/home/dev/app/.git/".to_string(),
        head: Some(HeadCommit { id: "aaaa".to_string(), time: 100 }),
        origin: None,
        local_branches: vec![
            nav_branch("main", "aaaa", 100),
            nav_branch("topic", "bbbb", 300),
            nav_branch("older", "cccc", 50),
        ],
        remote_branches: vec![],
        worktrees: vec![],
        statuses,
    }
}

fn status(path: &str, state: FileState) -> StatusEntry {
    StatusEntry { path: path.to_string(), state }
}

fn picked(items: &[&str], key: FinalKey) -> SelectionResult {
    SelectionResult {
        selected_items: items.iter().map(|s| s.to_string()).collect(),
        terminal_key: key,
    }
}

fn some(s: &str) -> Option<String> {
    Some(s.to_string())
}

#[test]
fn picker_is_not_asked_without_candidates() {
    assert_eq!(get_fuzzy_options(None, false, "Branch".to_string(), String::new()), None);
    assert_eq!(get_fuzzy_options(some("q"), true, "PR branch".to_string(), String::new()), None);
}

#[test]
fn picker_request_carries_prompt_and_bindings() {
    let single = get_fuzzy_options(some("lo"), false, "Branch".to_string(), "a\nb".to_string());
    assert_eq!(
        single,
        Some(FuzzyPrompt {
            query: some("lo"),
            multi: false,
            prompt: "(Branch) > ".to_string(),
            options: "a\nb".to_string(),
            bindings: vec![
                "esc:abort".to_string(),
                "enter:accept".to_string(),
                "ctrl-c:abort".to_string(),
            ],
        })
    );
    let multi = get_fuzzy_options(None, true, "PR branch".to_string(), "x".to_string()).unwrap();
    assert_eq!(multi.prompt, "(PR branch) > ");
    assert_eq!(
        multi.bindings,
        vec!["esc:abort", "enter:accept", "ctrl-c:abort", "ctrl-a:toggle-all", "tab:toggle"]
    );
    assert!(multi.multi);
    assert_eq!(multi.query, None);
}

#[test]
fn final_key_accept_needs_a_selection() {
    assert_eq!(handle_final_key(&picked(&["main"], FinalKey::Accept)), Ok(()));
    assert_eq!(handle_final_key(&picked(&["a", "b"], FinalKey::Accept)), Ok(()));
    assert_eq!(
        handle_final_key(&picked(&[], FinalKey::Accept)),
        Err(EngineError::NothingSelected)
    );
}

#[test]
fn final_key_abort_cancels_whatever_is_selected() {
    assert_eq!(handle_final_key(&picked(&[], FinalKey::Abort)), Err(EngineError::Aborted));
    assert_eq!(handle_final_key(&picked(&["main"], FinalKey::Abort)), Err(EngineError::Aborted));
    assert_eq!(EngineError::Aborted.class(), ErrorClass::Cancelled);
    assert!(!EngineError::Aborted.is_fault());
    assert!(EngineError::NothingSelected.is_fault());
    assert_eq!(EngineError::NothingSelected.class(), ErrorClass::Resolution);
}

#[test]
fn worktree_item_shows_the_branch_when_it_differs() {
    assert_eq!(worktree_item(&"main".to_string(), &"main".to_string()), "main");
    assert_eq!(
        worktree_item(&"feature_login".to_string(), &"feature/login".to_string()),
        format!("feature_login -> {}feature/login", ICON)
    );
}

#[test]
fn offering_lines_needs_at_least_one_line() {
    assert_eq!(
        offer_lines(&vec![], None, false, "Branch", EngineError::BranchNotSelected),
        Err(EngineError::BranchNotSelected)
    );
    assert_eq!(
        offer_lines(&vec![], some("q"), true, "PR branch", EngineError::NoPullRequests),
        Err(EngineError::NoPullRequests)
    );
    assert_eq!(
        offer_lines(&vec![String::new()], None, false, "Branch", EngineError::BranchNotSelected),
        Err(EngineError::BranchNotSelected)
    );
    assert_eq!(
        offer_lines(
            &vec![String::new(), String::new()],
            None,
            false,
            "Branch",
            EngineError::BranchNotSelected
        )
        .map(|p| p.options),
        Ok("\n".to_string())
    );
    let asked = offer_lines(
        &vec!["a".to_string(), "b".to_string()],
        some("q"),
        false,
        "Branch",
        EngineError::BranchNotSelected,
    )
    .unwrap();
    assert_eq!(asked.options, "a\nb");
    assert_eq!(asked.prompt, "(Branch) > ");
    assert_eq!(asked.query, some("q"));
}

#[test]
fn directives_have_the_two_shapes() {
    assert_eq!(change_directory(&"/srv/project/main".to_string()), "cd /srv/project/main");
    assert_eq!(checkout("feature/login"), "git checkout feature/login");
}

#[test]
fn worktree_argument_wins_when_it_exists() {
    let repo = nav_bare();
    let r = change_branch_of_bare_or_worktree_repo(&repo, &some("idle"), &some("main"), None);
    assert_eq!(r, Ok(Navigation::Directive("cd /srv/project/main".to_string())));
}

#[test]
fn branch_argument_leads_to_its_worktree() {
    let repo = nav_bare();
    let r = change_branch_of_bare_or_worktree_repo(&repo, &some("feature/login"), &None, None);
    assert_eq!(r, Ok(Navigation::Directive("cd /srv/project/feature_login".to_string())));
}

#[test]
fn branch_without_worktree_is_a_resolution_failure() {
    let repo = nav_bare();
    let r = change_branch_of_bare_or_worktree_repo(&repo, &some("idle"), &None, None);
    assert_eq!(r, Err(EngineError::NoWorktreeForBranch));
    assert_eq!(EngineError::NoWorktreeForBranch.class(), ErrorClass::Resolution);
}

#[test]
fn unknown_arguments_fall_back_to_the_picker() {
    let repo = nav_bare();
    let expected = Navigation::Prompt(FuzzyPrompt {
        query: some("fea"),
        multi: false,
        prompt: "(Worktree branch) > ".to_string(),
        options: format!("feature_login -> {}feature/login\nmain", ICON),
        bindings: vec![
            "esc:abort".to_string(),
            "enter:accept".to_string(),
            "ctrl-c:abort".to_string(),
        ],
    });
    let by_worktree =
        change_branch_of_bare_or_worktree_repo(&repo, &some("main"), &some("nope"), some("fea"));
    assert_eq!(by_worktree, Ok(expected.clone()));
    let by_branch =
        change_branch_of_bare_or_worktree_repo(&repo, &some("nope"), &None, some("fea"));
    assert_eq!(by_branch, Ok(expected.clone()));
    let by_nothing = change_branch_of_bare_or_worktree_repo(&repo, &None, &None, some("fea"));
    assert_eq!(by_nothing, Ok(expected));
}

#[test]
fn no_worktrees_means_nothing_to_select() {
    let mut repo = nav_bare();
    repo.worktrees.clear();
    let r = change_branch_of_bare_or_worktree_repo(&repo, &None, &None, None);
    assert_eq!(r, Err(EngineError::WorkspaceNotSelected));
}

#[test]
fn selected_worktree_line_becomes_a_cd_directive() {
    let repo = nav_bare();
    let line = format!("feature_login -> {}feature/login", ICON);
    assert_eq!(
        change_to_selected_worktree(&repo, &picked(&[&line], FinalKey::Accept)),
        Ok("cd /srv/project/feature_login".to_string())
    );
    assert_eq!(
        change_to_selected_worktree(&repo, &picked(&["main", "ignored"], FinalKey::Accept)),
        Ok("cd /srv/project/main".to_string())
    );
    assert_eq!(
        change_to_selected_worktree(&repo, &picked(&["gone"], FinalKey::Accept)),
        Err(EngineError::WorktreeNotFound)
    );
    assert_eq!(
        change_to_selected_worktree(&repo, &picked(&["feature/login"], FinalKey::Accept)),
        Err(EngineError::WorktreeNotFound)
    );
}

fn nav_diverged() -> RepoSnapshot {
    let mut repo = nav_bare();
    repo.local_branches.push(nav_branch("dev", "dddd", 400));
    repo.local_branches.push(nav_branch("other", "eeee", 10));
    repo.worktrees = vec![
        nav_worktree("dev", "/srv/project/dev", Some("other")),
        nav_worktree("wt", "/srv/project/wt", Some("dev")),
        nav_worktree("main", "/srv/project/main", Some("main")),
    ];
    repo
}

#[test]
fn selected_line_leads_into_its_worktree_whatever_the_branch_is_called() {
    let repo = nav_diverged();
    let offered = change_branch_of_bare_or_worktree_repo(&repo, &None, &None, None);
    let lines = vec![
        format!("wt -> {}dev", ICON),
        "main".to_string(),
        format!("dev -> {}other", ICON),
    ];
    match offered {
        Ok(Navigation::Prompt(prompt)) => assert_eq!(prompt.options, lines.join("\n")),
        other => panic!("unexpected navigation {:?}", other),
    }
    let paths = ["/srv/project/wt", "/srv/project/main", "/srv/project/dev"];
    for (line, path) in lines.iter().zip(paths) {
        assert_eq!(
            change_to_selected_worktree(&repo, &picked(&[line], FinalKey::Accept)),
            Ok(format!("cd {}", path))
        );
    }
}

#[test]
fn lone_worktree_on_a_branch_of_another_name_is_reached() {
    let mut repo = nav_bare();
    repo.local_branches.push(nav_branch("dev", "dddd", 400));
    repo.worktrees = vec![nav_worktree("wt", "/srv/project/wt", Some("dev"))];
    let line = format!("wt -> {}dev", ICON);
    assert_eq!(
        change_to_selected_worktree(&repo, &picked(&[&line], FinalKey::Accept)),
        Ok("cd /srv/project/wt".to_string())
    );
    assert_eq!(
        change_branch_of_bare_or_worktree_repo(&repo, &some("dev"), &None, None),
        Ok(Navigation::Directive("cd /srv/project/wt".to_string()))
    );
    assert_eq!(
        change_branch_of_bare_or_worktree_repo(&repo, &None, &some("wt"), None),
        Ok(Navigation::Directive("cd /srv/project/wt".to_string()))
    );
}

#[test]
fn arguments_lead_into_the_named_worktree_when_names_diverge() {
    let repo = nav_diverged();
    assert_eq!(
        change_branch_of_bare_or_worktree_repo(&repo, &some("dev"), &None, None),
        Ok(Navigation::Directive("cd /srv/project/wt".to_string()))
    );
    assert_eq!(
        change_branch_of_bare_or_worktree_repo(&repo, &None, &some("dev"), None),
        Ok(Navigation::Directive("cd /srv/project/dev".to_string()))
    );
    assert_eq!(
        change_branch_of_bare_or_worktree_repo(&repo, &some("other"), &None, None),
        Ok(Navigation::Directive("cd /srv/project/dev".to_string()))
    );
}

#[test]
fn abort_in_worktree_picker_is_a_cancellation() {
    let repo = nav_bare();
    assert_eq!(
        change_to_selected_worktree(&repo, &picked(&["main"], FinalKey::Abort)),
        Err(EngineError::Aborted)
    );
    assert_eq!(
        change_to_selected_worktree(&repo, &picked(&[], FinalKey::Accept)),
        Err(EngineError::NothingSelected)
    );
}

#[test]
fn clean_working_tree_is_clear() {
    assert!(is_branch_clear(&nav_regular(vec![])));
    assert!(is_branch_clear(&nav_regular(vec![
        status("notes.txt", FileState::Untracked),
        status("scratch/", FileState::Untracked),
    ])));
    assert!(!is_branch_clear(&nav_regular(vec![status("src/lib.rs", FileState::Changed)])));
    assert!(!is_branch_clear(&nav_regular(vec![
        status("notes.txt", FileState::Untracked),
        status("src/lib.rs", FileState::Changed),
    ])));
}

#[test]
fn modified_tracked_file_blocks_the_switch() {
    let repo = nav_regular(vec![status("src/lib.rs", FileState::Changed)]);
    let before = repo.clone();
    assert_eq!(
        change_branch_of_regular_repo(&repo, &some("topic"), None),
        Err(EngineError::DirtyWorkspace)
    );
    assert_eq!(change_branch_of_regular_repo(&repo, &None, None), Err(EngineError::DirtyWorkspace));
    assert_eq!(repo, before);
    assert_eq!(EngineError::DirtyWorkspace.class(), ErrorClass::DirtyWorkspace);
    assert_eq!(EngineError::DirtyWorkspace.message(), "Branch has uncommitted changes");
}

#[test]
fn untracked_files_do_not_block_the_switch() {
    let repo = nav_regular(vec![status("notes.txt", FileState::Untracked)]);
    assert_eq!(
        change_branch_of_regular_repo(&repo, &some("topic"), None),
        Ok(Navigation::Directive("git checkout topic".to_string()))
    );
}

#[test]
fn unknown_branch_falls_back_to_the_picker_most_recent_first() {
    let repo = nav_regular(vec![]);
    let r = change_branch_of_regular_repo(&repo, &some("nope"), some("to"));
    assert_eq!(
        r,
        Ok(Navigation::Prompt(FuzzyPrompt {
            query: some("to"),
            multi: false,
            prompt: "(Branch) > ".to_string(),
            options: "topic\nmain\nolder".to_string(),
            bindings: vec![
                "esc:abort".to_string(),
                "enter:accept".to_string(),
                "ctrl-c:abort".to_string(),
            ],
        }))
    );
}

#[test]
fn no_branches_means_nothing_to_select() {
    let mut repo = nav_regular(vec![]);
    repo.local_branches.clear();
    assert_eq!(
        change_branch_of_regular_repo(&repo, &None, None),
        Err(EngineError::BranchNotSelected)
    );
}

#[test]
fn selected_branch_becomes_a_checkout_directive() {
    assert_eq!(
        change_to_selected_branch(&picked(&["topic"], FinalKey::Accept)),
        Ok("git checkout topic".to_string())
    );
    assert_eq!(
        change_to_selected_branch(&picked(&["a", "b"], FinalKey::Accept)),
        Ok("git checkout a".to_string())
    );
    assert_eq!(
        change_to_selected_branch(&picked(&[], FinalKey::Accept)),
        Err(EngineError::NothingSelected)
    );
    assert_eq!(
        change_to_selected_branch(&picked(&["topic"], FinalKey::Abort)),
        Err(EngineError::Aborted)
    );
}

#[test]
fn failure_is_described_with_what_it_is_about() {
    assert_eq!(
        EngineError::WorktreeNotFound.describe("feature_login"),
        "Worktree not found: feature_login"
    );
    assert_eq!(EngineError::HeadUnavailable.describe(""), "Failed to get head commit");
    assert_eq!(
        EngineError::InvalidGithubUrl.describe("file:///srv/mirror"),
        "Invalid GitHub URL: file:///srv/mirror"
    );
}

#[test]
fn failed_request_names_what_was_asked_for() {
    assert_eq!(
        describe_request_failure(EngineError::NoWorktreeForBranch, &some("idle"), &None),
        "No worktree found for the given branch name: idle"
    );
    assert_eq!(
        describe_request_failure(EngineError::WorktreeNotFound, &some("idle"), &some("wt")),
        "Worktree not found: wt"
    );
    assert_eq!(
        describe_request_failure(EngineError::WorkspaceNotSelected, &None, &None),
        "Workspace not selected"
    );
    assert_eq!(
        describe_selection_failure(
            EngineError::WorktreeNotFound,
            &picked(&["gone", "other"], FinalKey::Accept)
        ),
        "Worktree not found: gone"
    );
    assert_eq!(
        describe_selection_failure(EngineError::NothingSelected, &picked(&[], FinalKey::Accept)),
        "No item selected"
    );
}

#[test]
fn status_flags_are_read_as_the_storage_numbers_them() {
    assert_eq!(STATUS_WT_NEW, git2::Status::WT_NEW.bits());
    assert_eq!(STATUS_IGNORED, git2::Status::IGNORED.bits());
    assert_eq!(file_state(git2::Status::WT_NEW.bits()), FileState::Untracked);
    assert_eq!(file_state(git2::Status::IGNORED.bits()), FileState::Untracked);
    assert_eq!(file_state(git2::Status::WT_MODIFIED.bits()), FileState::Changed);
    assert_eq!(file_state(git2::Status::INDEX_NEW.bits()), FileState::Changed);
    assert_eq!(file_state(git2::Status::INDEX_MODIFIED.bits()), FileState::Changed);
    assert_eq!(file_state(git2::Status::WT_DELETED.bits()), FileState::Changed);
    assert_eq!(file_state(git2::Status::CONFLICTED.bits()), FileState::Changed);
    assert_eq!(
        file_state((git2::Status::INDEX_NEW | git2::Status::WT_MODIFIED).bits()),
        FileState::Changed
    );
}

#[test]
fn every_failure_has_a_message_and_a_class() {
    assert_eq!(
        EngineError::SlashInWorktreeName.message(),
        "Cannot add a worktree with a '/' in the name"
    );
    assert_eq!(EngineError::WorktreeNotFound.message(), "Worktree not found");
    assert_eq!(
        EngineError::NoWorktreeForBranch.message(),
        "No worktree found for the given branch name"
    );
    assert_eq!(EngineError::BranchNameUnavailable.message(), "Failed to get branch name");
    assert_eq!(EngineError::NothingSelected.message(), "No item selected");
    assert_eq!(EngineError::Aborted.message(), "User chose to abort current operation");
    assert_eq!(EngineError::NoPullRequests.message(), "No available PRs to select");
    assert_eq!(EngineError::WorkspaceNotSelected.message(), "Workspace not selected");
    assert_eq!(EngineError::BranchNotSelected.message(), "Branch not selected");
    assert_eq!(EngineError::InvalidGithubUrl.message(), "Invalid GitHub URL");
    assert_eq!(EngineError::OwnerNotFound.message(), "Owner not found");
    assert_eq!(EngineError::RepoNameNotFound.message(), "Repository name not found");
    assert_eq!(EngineError::RemoteUrlNotFound.message(), "Remote URL not found");
    assert_eq!(EngineError::RemoteNotFound.message(), "Failed to find remote");
    assert_eq!(EngineError::RootPathUnavailable.message(), "Failed to get worktree root path");
    assert_eq!(EngineError::FetchFailed.message(), "Failed to fetch");
    assert_eq!(EngineError::HeadUnavailable.message(), "Failed to get head commit");
    assert_eq!(EngineError::FetchFailed.class(), ErrorClass::Fault);
    assert_eq!(EngineError::InvalidObjectId.class(), ErrorClass::Fault);
    assert_eq!(EngineError::PullRequestsUnavailable.class(), ErrorClass::Fault);
    assert_eq!(EngineError::InvalidPattern.class(), ErrorClass::Fault);
    assert_eq!(EngineError::WorktreeNotFound.class(), ErrorClass::Resolution);
}
