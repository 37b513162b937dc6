use git_worktree_cli::branch::{
    _check_remote_branch_exist, branch_exists_by_name, get_branch, get_branches,
};
use git_worktree_cli::error::EngineError;
use git_worktree_cli::names::{contains_separator, normalize_workspace_name};
use git_worktree_cli::order::recency_positions;
use git_worktree_cli::repo::{
    classify, BranchInfo, BranchKind, BranchRecord, HeadCommit, Remote, RepoSnapshot, Topology,
    WorktreeEntry, WorktreeRecord,
};
use git_worktree_cli::text::{decimal_string, join};
use git_worktree_cli::worktree::{
    get_worktree_branch, get_worktree_branch_name, get_worktree_by_branch_name,
    get_worktree_by_name, get_worktree_commit_time, get_worktree_names,
    get_worktree_path_by_name, list_worktrees, worktree_exists_by_branch_name,
    worktree_exists_by_name,
};
use git_worktree_cli::worktree_map::get_worktree_branches;

fn branch(name: &str, head: &str, commit_time: i64) -> BranchRecord {
    BranchRecord { name: name.to_string(), head: head.to_string(), commit_time }
}

fn worktree(name: &str, path: &str, branch: Option<&str>) -> WorktreeEntry {
    WorktreeEntry {
        name: name.to_string(),
        path: path.to_string(),
        branch: branch.map(|b| b.to_string()),
    }
}

fn info(name: &str, head: &str) -> BranchInfo {
    BranchInfo { name: name.to_string(), head: head.to_string() }
}

fn bare_repo() -> RepoSnapshot {
    RepoSnapshot {
        is_bare: true,
        is_worktree: false,
        git_dir: "/srv/project/".to_string(),
        head: Some(HeadCommit { id: "aaaa".to_string(), time: 100 }),
        origin: Some(Remote { url: Some("git@github.com:acme/tool.git".to_string()) }),
        local_branches: vec![
            branch("main", "aaaa", 100),
            branch("feature/login", "bbbb", 300),
            branch("fix", "cccc", 200),
            branch("old", "dddd", 100),
        ],
        remote_branches: vec![branch("origin/main", "aaaa", 100), branch("origin/remote-only", "eeee", 50)],
        worktrees: vec![
            worktree("main", "/srv/project/main", Some("main")),
            worktree("detached", "/srv/project/detached", Some("HEAD")),
            worktree("feature_login", "/srv/project/feature_login", Some("feature/login")),
            worktree("broken", "/srv/project/broken", None),
            worktree("fix", "/srv/project/fix", Some("fix")),
        ],
        statuses: vec![],
    }
}

#[test]
fn normalize_replaces_every_slash() {
    assert_eq!(normalize_workspace_name("feature/login"), "feature_login");
    assert_eq!(normalize_workspace_name("a/b/c"), "a_b_c");
    assert_eq!(normalize_workspace_name("/lead/trail/"), "_lead_trail_");
}

#[test]
fn normalize_keeps_names_without_slash() {
    assert_eq!(normalize_workspace_name("main"), "main");
    assert_eq!(normalize_workspace_name(""), "");
    assert_eq!(normalize_workspace_name("feature_login"), "feature_login");
    assert_eq!(normalize_workspace_name("wörk\\tree"), "wörk\\tree");
}

#[test]
fn normalize_is_idempotent_on_examples() {
    for name in ["feature/login", "a//b", "plain", "x/y_z"] {
        let once = normalize_workspace_name(name);
        assert_eq!(normalize_workspace_name(&once), once);
        assert!(!contains_separator(&once));
    }
}

#[test]
fn separator_is_found_anywhere() {
    assert!(contains_separator("feature/login"));
    assert!(contains_separator("/"));
    assert!(contains_separator("tail/"));
    assert!(!contains_separator("feature_login"));
    assert!(!contains_separator(""));
}

#[test]
fn decimal_of_small_and_large_numbers() {
    assert_eq!(decimal_string(0), "0");
    assert_eq!(decimal_string(7), "7");
    assert_eq!(decimal_string(10), "10");
    assert_eq!(decimal_string(4096), "4096");
    assert_eq!(decimal_string(1234567890), "1234567890");
    assert_eq!(decimal_string(u64::MAX), "18446744073709551615");
}

#[test]
fn join_puts_separator_between_items() {
    let lines = vec!["a".to_string(), "b".to_string(), "c".to_string()];
    assert_eq!(join(&lines, "\n"), "a\nb\nc");
    assert_eq!(join(&lines, ", "), "a, b, c");
    assert_eq!(join(&vec!["only".to_string()], "\n"), "only");
    assert_eq!(join(&Vec::new(), "\n"), "");
    assert_eq!(join(&vec!["".to_string(), "".to_string()], "-"), "-");
}

#[test]
fn recency_positions_sorts_descending() {
    assert_eq!(recency_positions(&vec![10, 30, 20]), vec![1, 2, 0]);
    assert_eq!(recency_positions(&vec![-5, 0, 5]), vec![2, 1, 0]);
    assert_eq!(recency_positions(&vec![i64::MIN, i64::MAX]), vec![1, 0]);
    assert_eq!(recency_positions(&vec![]), Vec::<usize>::new());
    assert_eq!(recency_positions(&vec![42]), vec![0]);
}

#[test]
fn recency_positions_keeps_ties_in_order() {
    assert_eq!(recency_positions(&vec![5, 5, 5]), vec![0, 1, 2]);
    assert_eq!(recency_positions(&vec![1, 9, 1, 9, 1]), vec![1, 3, 0, 2, 4]);
    assert_eq!(recency_positions(&vec![3, 1, 3, 2, 1]), vec![0, 2, 3, 1, 4]);
}

#[test]
fn classify_reads_the_two_flags() {
    let mut repo = bare_repo();
    assert_eq!(classify(&repo), Topology::Bare);
    assert!(classify(&repo).uses_worktrees());
    repo.is_bare = false;
    repo.is_worktree = true;
    assert_eq!(classify(&repo), Topology::Worktree);
    assert!(classify(&repo).uses_worktrees());
    repo.is_worktree = false;
    assert_eq!(classify(&repo), Topology::Regular);
    assert!(!classify(&repo).uses_worktrees());
}

#[test]
fn local_branches_are_listed_most_recent_first() {
    let listed = get_branches(&bare_repo(), BranchKind::Local);
    assert_eq!(
        listed,
        vec![
            info("feature/login", "bbbb"),
            info("fix", "cccc"),
            info("main", "aaaa"),
            info("old", "dddd"),
        ]
    );
}

#[test]
fn branches_with_equal_time_keep_enumeration_order() {
    let mut repo = bare_repo();
    repo.local_branches = vec![
        branch("b", "1", 7),
        branch("a", "2", 7),
        branch("z", "3", 9),
        branch("c", "4", 7),
    ];
    let first = get_branches(&repo, BranchKind::Local);
    assert_eq!(first, vec![info("z", "3"), info("b", "1"), info("a", "2"), info("c", "4")]);
    let second = get_branches(&repo, BranchKind::Local);
    assert_eq!(first, second);
}

#[test]
fn remote_branches_are_listed_under_their_full_names() {
    let listed = get_branches(&bare_repo(), BranchKind::Remote);
    assert_eq!(listed, vec![info("origin/main", "aaaa"), info("origin/remote-only", "eeee")]);
}

#[test]
fn branch_exists_compares_the_listed_name() {
    let repo = bare_repo();
    assert!(branch_exists_by_name(&repo, "main", BranchKind::Local));
    assert!(branch_exists_by_name(&repo, "feature/login", BranchKind::Local));
    assert!(!branch_exists_by_name(&repo, "feature", BranchKind::Local));
    assert!(!branch_exists_by_name(&repo, "remote-only", BranchKind::Local));
    assert!(branch_exists_by_name(&repo, "origin/main", BranchKind::Remote));
    assert!(!branch_exists_by_name(&repo, "main", BranchKind::Remote));
    assert!(_check_remote_branch_exist(&repo, &"origin/remote-only".to_string()));
    assert!(!_check_remote_branch_exist(&repo, &"remote-only".to_string()));
}

#[test]
fn get_branch_prefixes_remote_names() {
    let repo = bare_repo();
    assert_eq!(get_branch(&repo, "main", BranchKind::Local), Some(info("main", "aaaa")));
    assert_eq!(get_branch(&repo, "remote-only", BranchKind::Local), None);
    assert_eq!(
        get_branch(&repo, "remote-only", BranchKind::Remote),
        Some(info("remote-only", "eeee"))
    );
    assert_eq!(get_branch(&repo, "origin/main", BranchKind::Remote), None);
    assert_eq!(get_branch(&repo, "fix", BranchKind::Remote), None);
}

#[test]
fn worktrees_are_listed_by_commit_time_without_unranked_ones() {
    let listed = list_worktrees(&bare_repo());
    assert_eq!(
        listed,
        vec![
            WorktreeRecord {
                name: "feature_login".to_string(),
                filesystem_path: "/srv/project/feature_login".to_string(),
                last_commit_time: 300,
            },
            WorktreeRecord {
                name: "fix".to_string(),
                filesystem_path: "/srv/project/fix".to_string(),
                last_commit_time: 200,
            },
            WorktreeRecord {
                name: "main".to_string(),
                filesystem_path: "/srv/project/main".to_string(),
                last_commit_time: 100,
            },
        ]
    );
    assert_eq!(get_worktree_names(&bare_repo()), vec!["feature_login", "fix", "main"]);
}

#[test]
fn worktree_commit_time_comes_from_the_local_branch() {
    let repo = bare_repo();
    assert_eq!(get_worktree_commit_time(&repo, "fix"), Some(200));
    assert_eq!(get_worktree_commit_time(&repo, "detached"), None);
    assert_eq!(get_worktree_commit_time(&repo, "broken"), None);
    assert_eq!(get_worktree_commit_time(&repo, "missing"), None);
}

#[test]
fn worktree_branch_is_read_by_name() {
    let repo = bare_repo();
    assert_eq!(get_worktree_branch(&repo, "feature_login"), Ok("feature/login".to_string()));
    assert_eq!(get_worktree_branch_name(&repo, "detached"), Ok("HEAD".to_string()));
    assert_eq!(get_worktree_branch(&repo, "broken"), Err(EngineError::BranchNameUnavailable));
    assert_eq!(get_worktree_branch(&repo, "missing"), Err(EngineError::WorktreeNotFound));
    assert_eq!(get_worktree_branch_name(&repo, "feature/login"), Err(EngineError::WorktreeNotFound));
}

#[test]
fn worktree_path_is_found_by_normalized_name() {
    let repo = bare_repo();
    assert_eq!(
        get_worktree_path_by_name(&repo, "feature/login"),
        Ok("/srv/project/feature_login".to_string())
    );
    assert_eq!(
        get_worktree_path_by_name(&repo, "feature_login"),
        Ok("/srv/project/feature_login".to_string())
    );
    assert_eq!(get_worktree_path_by_name(&repo, "broken"), Ok("/srv/project/broken".to_string()));
    assert_eq!(get_worktree_path_by_name(&repo, "feature"), Err(EngineError::WorktreeNotFound));
}

#[test]
fn worktree_for_branch_takes_the_first_match() {
    let mut repo = bare_repo();
    repo.worktrees.push(worktree("second", "/srv/project/second", Some("fix")));
    assert_eq!(get_worktree_by_branch_name(&repo, "fix"), Ok("fix".to_string()));
    assert_eq!(get_worktree_by_branch_name(&repo, "feature/login"), Ok("feature_login".to_string()));
    assert_eq!(
        get_worktree_by_branch_name(&repo, "feature_login"),
        Err(EngineError::NoWorktreeForBranch)
    );
    assert!(worktree_exists_by_branch_name(&repo, "main"));
    assert!(worktree_exists_by_branch_name(&repo, "HEAD"));
    assert!(!worktree_exists_by_branch_name(&repo, "old"));
}

#[test]
fn worktree_exists_by_exact_name_only() {
    let repo = bare_repo();
    assert!(worktree_exists_by_name(&repo, "feature_login"));
    assert!(!worktree_exists_by_name(&repo, "feature/login"));
    assert!(worktree_exists_by_name(&repo, "broken"));
    assert_eq!(
        get_worktree_by_name(&repo, "fix"),
        Ok(worktree("fix", "/srv/project/fix", Some("fix")))
    );
    assert_eq!(get_worktree_by_name(&repo, "nope"), Err(EngineError::WorktreeNotFound));
}

#[test]
fn worktree_branch_map_follows_the_listing() {
    let map = get_worktree_branches(&bare_repo());
    let pairs: Vec<(String, String)> =
        map.iter().map(|(k, v)| (k.clone(), v.clone())).collect();
    assert_eq!(
        pairs,
        vec![
            ("feature_login".to_string(), "feature/login".to_string()),
            ("fix".to_string(), "fix".to_string()),
            ("main".to_string(), "main".to_string()),
        ]
    );
    assert_eq!(map.get("fix"), Some(&"fix".to_string()));
    assert_eq!(map.get("broken"), None);
}

#[test]
fn worktree_branch_map_of_a_repository_without_worktrees_is_empty() {
    let mut repo = bare_repo();
    repo.worktrees.clear();
    assert!(get_worktree_branches(&repo).is_empty());
    assert!(get_worktree_names(&repo).is_empty());
    assert!(list_worktrees(&repo).is_empty());
}
