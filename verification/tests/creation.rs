use git_worktree_cli::creator::{
    _get_remote_branch_reference, add_branch, add_branch_to_repo, add_sub_command, add_workspace,
    add_worktree, add_worktree_to_repo, get_local_branch_reference, local_branch_reference_name,
    AddTarget, Addition, BranchAddition, Checkout, FetchOutcome, StorageAction, WorktreeAddition,
};
use git_worktree_cli::error::EngineError;
use git_worktree_cli::fetch::{agent_username, fetch_all, FetchRequest};
use git_worktree_cli::paths::{get_root_repo_path, get_worktree_root_path};
use git_worktree_cli::repo::{
    AddKind, BranchInfo, BranchRecord, HeadCommit, Remote, RepoSnapshot, WorktreeEntry,
};

const HEAD_ID: &str = "0123456789abcdef0123456789abcdef01234567";
const REMOTE_ID: &str = "89abcdef0123456789abcdef0123456789ABCDEF";

fn mk_branch(name: &str, head: &str, commit_time: i64) -> BranchRecord {
    BranchRecord { name: name.to_string(), head: head.to_string(), commit_time }
}

fn mk_info(name: &str, head: &str) -> BranchInfo {
    BranchInfo { name: name.to_string(), head: head.to_string() }
}

fn mk_worktree(name: &str, path: &str, branch: &str) -> WorktreeEntry {
    WorktreeEntry { name: name.to_string(), path: path.to_string(), branch: Some(branch.to_string()) }
}

fn hub() -> RepoSnapshot {
    RepoSnapshot {
        is_bare: true,
        is_worktree: false,
        git_dir: "/srv/project/".to_string(),
        head: Some(HeadCommit { id: HEAD_ID.to_string(), time: 100 }),
        origin: Some(Remote { url: Some("git@github.com:acme/tool.git".to_string()) }),
        local_branches: vec![mk_branch("main", HEAD_ID, 100)],
        remote_branches: vec![
            mk_branch("origin/main", HEAD_ID, 100),
            mk_branch("origin/feature/login", REMOTE_ID, 250),
        ],
        worktrees: vec![mk_worktree("main", "/srv/project/main", "main")],
        statuses: vec![],
    }
}

fn checkout_repo() -> RepoSnapshot {
    RepoSnapshot {
        is_bare: false,
        is_worktree: false,
        git_dir: "/home/dev/app/.git/".to_string(),
        head: Some(HeadCommit { id: HEAD_ID.to_string(), time: 100 }),
        origin: Some(Remote { url: Some("https://github.com/acme/tool".to_string()) }),
        local_branches: vec![mk_branch("main", HEAD_ID, 100)],
        remote_branches: vec![
            mk_branch("origin/main", HEAD_ID, 100),
            mk_branch("origin/feature/login", REMOTE_ID, 250),
        ],
        worktrees: vec![],
        statuses: vec![],
    }
}

#[test]
fn root_of_a_bare_repository_is_its_own_directory() {
    assert_eq!(get_root_repo_path(&hub()), Ok("/srv/project/".to_string()));
}

#[test]
fn root_of_a_worktree_is_three_levels_up() {
    let mut repo = hub();
    repo.is_bare = false;
    repo.is_worktree = true;
    repo.git_dir = "/srv/project/.git/worktrees/feature/".to_string();
    assert_eq!(get_root_repo_path(&repo), Ok("/srv/project".to_string()));
    assert_eq!(get_worktree_root_path(&repo), Ok("/srv/project".to_string()));
}

#[test]
fn root_of_a_shallow_worktree_path_is_unavailable() {
    let mut repo = hub();
    repo.is_bare = false;
    repo.is_worktree = true;
    repo.git_dir = "/a/b".to_string();
    assert_eq!(get_root_repo_path(&repo), Err(EngineError::RootPathUnavailable));
    repo.git_dir = "/a/b/c".to_string();
    assert_eq!(get_root_repo_path(&repo), Ok("/".to_string()));
    repo.git_dir = "".to_string();
    assert_eq!(get_worktree_root_path(&repo), Err(EngineError::RootPathUnavailable));
}

#[test]
fn fetch_asks_for_all_branches_of_origin() {
    assert_eq!(
        fetch_all(&hub()),
        Ok(FetchRequest {
            remote: "origin".to_string(),
            refspecs: vec!["+refs/heads/*:refs/remotes/origin/*".to_string()],
        })
    );
    let mut repo = hub();
    repo.origin = None;
    assert_eq!(fetch_all(&repo), Err(EngineError::RemoteNotFound));
}

#[test]
fn key_agent_user_defaults_to_git() {
    assert_eq!(agent_username(None), "git");
    assert_eq!(agent_username(Some("deploy".to_string())), "deploy");
}

#[test]
fn reference_names_are_spelled_out() {
    assert_eq!(local_branch_reference_name(&mk_info("feature/login", REMOTE_ID)), "refs/heads/feature/login");
    assert_eq!(
        _get_remote_branch_reference(&mk_info("feature/login", REMOTE_ID)),
        "refs/remotes/origin/feature/login"
    );
}

#[test]
fn existing_local_branch_is_reported_as_existing() {
    let repo = checkout_repo();
    assert_eq!(
        add_branch(&repo, "main"),
        Ok(BranchAddition {
            branch: mk_info("main", HEAD_ID),
            kind: AddKind::Existed,
            action: StorageAction::Nothing,
        })
    );
}

#[test]
fn remote_branch_satisfies_the_request_without_a_local_branch() {
    let repo = checkout_repo();
    assert_eq!(
        add_branch(&repo, "feature/login"),
        Ok(BranchAddition {
            branch: mk_info("feature/login", REMOTE_ID),
            kind: AddKind::Existed,
            action: StorageAction::Nothing,
        })
    );
}

#[test]
fn new_branch_is_made_at_head() {
    let repo = checkout_repo();
    assert_eq!(
        add_branch(&repo, "topic"),
        Ok(BranchAddition {
            branch: mk_info("topic", HEAD_ID),
            kind: AddKind::Added,
            action: StorageAction::CreateBranch {
                name: "topic".to_string(),
                commit: HEAD_ID.to_string(),
                commit_time: 100,
            },
        })
    );
}

#[test]
fn new_branch_needs_a_head_commit() {
    let mut repo = checkout_repo();
    repo.head = None;
    assert_eq!(add_branch(&repo, "topic"), Err(EngineError::HeadUnavailable));
    assert_eq!(add_branch(&repo, "main").map(|a| a.kind), Ok(AddKind::Existed));
}

#[test]
fn branch_request_gives_a_checkout_directive() {
    let repo = checkout_repo();
    assert_eq!(
        add_branch_to_repo(&repo, FetchOutcome::Fetched, "topic"),
        Ok(Addition {
            directive: "git checkout topic".to_string(),
            kind: AddKind::Added,
            action: StorageAction::CreateBranch {
                name: "topic".to_string(),
                commit: HEAD_ID.to_string(),
                commit_time: 100,
            },
        })
    );
    assert_eq!(
        add_branch_to_repo(&repo, FetchOutcome::Fetched, "feature/login"),
        Ok(Addition {
            directive: "git checkout feature/login".to_string(),
            kind: AddKind::Existed,
            action: StorageAction::Nothing,
        })
    );
}

#[test]
fn adding_a_branch_twice_yields_existed_and_changes_nothing_more() {
    let mut repo = checkout_repo();
    let first = add_branch_to_repo(&repo, FetchOutcome::Fetched, "topic").unwrap();
    assert_eq!(first.kind, AddKind::Added);
    repo.apply(&first.action);
    let after_first = repo.clone();
    let second = add_branch_to_repo(&repo, FetchOutcome::Fetched, "topic").unwrap();
    assert_eq!(second.kind, AddKind::Existed);
    assert_eq!(second.action, StorageAction::Nothing);
    assert_eq!(second.directive, first.directive);
    repo.apply(&second.action);
    assert_eq!(repo, after_first);
    assert_eq!(repo.local_branches.last(), Some(&mk_branch("topic", HEAD_ID, 100)));
}

#[test]
fn failed_fetch_ends_the_request() {
    let repo = hub();
    assert_eq!(
        add_worktree_to_repo(&repo, FetchOutcome::Failed, "main"),
        Err(EngineError::FetchFailed)
    );
    assert_eq!(
        add_branch_to_repo(&checkout_repo(), FetchOutcome::Failed, "topic"),
        Err(EngineError::FetchFailed)
    );
    assert_eq!(add_workspace(&repo, FetchOutcome::Failed, "x"), Err(EngineError::FetchFailed));
}

#[test]
fn existing_worktree_is_reported_as_existing() {
    let repo = hub();
    assert_eq!(
        add_worktree(&repo, "main", &None),
        Ok(WorktreeAddition {
            worktree: mk_worktree("main", "/srv/project/main", "main"),
            kind: AddKind::Existed,
            action: StorageAction::Nothing,
        })
    );
    assert_eq!(
        add_worktree_to_repo(&repo, FetchOutcome::Fetched, "main"),
        Ok(Addition {
            directive: "cd /srv/project/main".to_string(),
            kind: AddKind::Existed,
            action: StorageAction::Nothing,
        })
    );
}

#[test]
fn new_worktree_without_remote_branch_stands_below_the_root() {
    let repo = hub();
    assert_eq!(
        add_worktree_to_repo(&repo, FetchOutcome::Fetched, "topic"),
        Ok(Addition {
            directive: "cd /srv/project/topic".to_string(),
            kind: AddKind::Added,
            action: StorageAction::CreateWorktree {
                name: "topic".to_string(),
                path: "/srv/project/topic".to_string(),
                checkout: Checkout::Default,
            },
        })
    );
}

#[test]
fn new_worktree_is_anchored_at_the_remote_branch() {
    let repo = hub();
    assert_eq!(
        add_worktree_to_repo(&repo, FetchOutcome::Fetched, "feature/login"),
        Ok(Addition {
            directive: "cd /srv/project/feature_login".to_string(),
            kind: AddKind::Added,
            action: StorageAction::CreateWorktree {
                name: "feature_login".to_string(),
                path: "/srv/project/feature_login".to_string(),
                checkout: Checkout::Tracking {
                    branch: "feature/login".to_string(),
                    head: REMOTE_ID.to_string(),
                    commit_time: Some(250),
                },
            },
        })
    );
}

#[test]
fn worktree_inside_a_worktree_is_made_beside_it() {
    let mut repo = hub();
    repo.is_bare = false;
    repo.is_worktree = true;
    repo.git_dir = "/srv/project/.git/worktrees/main/".to_string();
    let added = add_worktree(&repo, "topic", &None).unwrap();
    assert_eq!(added.worktree.path, "/srv/project/topic");
    assert_eq!(added.worktree.branch, Some("topic".to_string()));
    assert_eq!(added.kind, AddKind::Added);
}

#[test]
fn local_branch_of_the_remote_branch_is_reused_when_it_exists() {
    let repo = hub();
    assert_eq!(
        get_local_branch_reference(&repo, &mk_info("main", HEAD_ID)),
        Ok(Checkout::Existing { branch: "main".to_string() })
    );
    assert_eq!(
        get_local_branch_reference(&repo, &mk_info("feature/login", REMOTE_ID)),
        Ok(Checkout::Tracking {
            branch: "feature/login".to_string(),
            head: REMOTE_ID.to_string(),
            commit_time: Some(250),
        })
    );
    assert_eq!(
        get_local_branch_reference(&repo, &mk_info("unlisted", "abc")),
        Ok(Checkout::Tracking {
            branch: "unlisted".to_string(),
            head: "abc".to_string(),
            commit_time: None,
        })
    );
}

#[test]
fn head_that_is_no_object_id_is_refused() {
    let repo = hub();
    for bad in ["", "xyz", "0123456789abcdef0123456789abcdef012345678", "12 34", "abcg", "é"] {
        assert_eq!(
            get_local_branch_reference(&repo, &mk_info("topic", bad)),
            Err(EngineError::InvalidObjectId)
        );
        assert_eq!(
            add_worktree(&repo, "topic", &Some(mk_info("topic", bad))),
            Err(EngineError::InvalidObjectId)
        );
    }
    for good in ["a", "0", "ABCDEF", HEAD_ID, REMOTE_ID] {
        assert!(get_local_branch_reference(&repo, &mk_info("topic", good)).is_ok());
    }
    assert_eq!(
        add_worktree(&repo, "main", &Some(mk_info("main", "not hex"))).map(|a| a.kind),
        Ok(AddKind::Existed)
    );
}

#[test]
fn adding_a_worktree_twice_yields_existed_and_changes_nothing_more() {
    let mut repo = hub();
    let first = add_worktree_to_repo(&repo, FetchOutcome::Fetched, "topic").unwrap();
    assert_eq!(first.kind, AddKind::Added);
    repo.apply(&first.action);
    let after_first = repo.clone();
    let second = add_worktree_to_repo(&repo, FetchOutcome::Fetched, "topic").unwrap();
    assert_eq!(second.kind, AddKind::Existed);
    assert_eq!(second.action, StorageAction::Nothing);
    assert_eq!(second.directive, first.directive);
    repo.apply(&second.action);
    assert_eq!(repo, after_first);
    assert_eq!(repo.worktrees.last(), Some(&mk_worktree("topic", "/srv/project/topic", "topic")));
    assert_eq!(repo.local_branches.last(), Some(&mk_branch("topic", HEAD_ID, 100)));
}

#[test]
fn slash_variants_reach_the_same_worktree() {
    let mut repo = hub();
    let first = add_worktree_to_repo(&repo, FetchOutcome::Fetched, "feature/login").unwrap();
    assert_eq!(first.kind, AddKind::Added);
    assert_eq!(first.directive, "cd /srv/project/feature_login");
    repo.apply(&first.action);
    assert_eq!(
        repo.worktrees.last(),
        Some(&mk_worktree("feature_login", "/srv/project/feature_login", "feature/login"))
    );
    assert_eq!(repo.local_branches.last(), Some(&mk_branch("feature/login", REMOTE_ID, 250)));
    let after_first = repo.clone();
    for variant in ["feature/login", "feature_login"] {
        let again = add_worktree_to_repo(&repo, FetchOutcome::Fetched, variant).unwrap();
        assert_eq!(again.kind, AddKind::Existed);
        assert_eq!(again.action, StorageAction::Nothing);
        assert_eq!(again.directive, "cd /srv/project/feature_login");
        repo.apply(&again.action);
        assert_eq!(repo, after_first);
    }
}

#[test]
fn apply_never_lists_a_name_twice() {
    let mut repo = hub();
    let action = StorageAction::CreateWorktree {
        name: "main".to_string(),
        path: "/elsewhere/main".to_string(),
        checkout: Checkout::Existing { branch: "main".to_string() },
    };
    let before = repo.clone();
    repo.apply(&action);
    assert_eq!(repo, before);
    repo.apply(&StorageAction::CreateBranch {
        name: "main".to_string(),
        commit: REMOTE_ID.to_string(),
        commit_time: 5,
    });
    assert_eq!(repo, before);
    repo.apply(&StorageAction::Nothing);
    assert_eq!(repo, before);
}

#[test]
fn apply_never_lists_a_worktree_under_a_name_with_a_slash() {
    let mut repo = hub();
    let before = repo.clone();
    repo.apply(&StorageAction::CreateWorktree {
        name: "feature/login".to_string(),
        path: "/srv/project/feature/login".to_string(),
        checkout: Checkout::Existing { branch: "main".to_string() },
    });
    assert_eq!(repo, before);
}

#[test]
fn apply_records_the_branch_that_comes_with_a_checkout() {
    let mut repo = hub();
    repo.apply(&StorageAction::CreateWorktree {
        name: "untimed".to_string(),
        path: "/srv/project/untimed".to_string(),
        checkout: Checkout::Tracking {
            branch: "untimed".to_string(),
            head: REMOTE_ID.to_string(),
            commit_time: None,
        },
    });
    assert_eq!(repo.local_branches.len(), 1);
    assert_eq!(
        repo.worktrees.last(),
        Some(&mk_worktree("untimed", "/srv/project/untimed", "untimed"))
    );
    repo.head = None;
    repo.apply(&StorageAction::CreateWorktree {
        name: "headless".to_string(),
        path: "/srv/project/headless".to_string(),
        checkout: Checkout::Default,
    });
    assert_eq!(repo.local_branches.len(), 1);
    assert_eq!(
        repo.worktrees.last(),
        Some(&mk_worktree("headless", "/srv/project/headless", "headless"))
    );
}

#[test]
fn user_given_worktree_name_must_be_flat() {
    let repo = hub();
    assert_eq!(add_sub_command(&repo, "feature/login"), Err(EngineError::SlashInWorktreeName));
    assert_eq!(add_sub_command(&repo, "feature_login"), Ok(AddTarget::Worktree));
    let mut inside = hub();
    inside.is_bare = false;
    inside.is_worktree = true;
    assert_eq!(add_sub_command(&inside, "a/b"), Err(EngineError::SlashInWorktreeName));
    assert_eq!(add_sub_command(&inside, "ab"), Ok(AddTarget::Worktree));
    assert_eq!(add_sub_command(&checkout_repo(), "feature/login"), Ok(AddTarget::Branch));
}

#[test]
fn workspace_kind_follows_the_topology() {
    let by_worktree = add_workspace(&hub(), FetchOutcome::Fetched, "topic").unwrap();
    assert_eq!(by_worktree.directive, "cd /srv/project/topic");
    let by_branch = add_workspace(&checkout_repo(), FetchOutcome::Fetched, "topic").unwrap();
    assert_eq!(by_branch.directive, "git checkout topic");
}
